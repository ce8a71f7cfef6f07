use vstd::prelude::*;
use vstd::string::*;

use crate::error::Error;

verus! {

/// The kind of statement a proof job proves.
#[derive(Debug, Clone, Copy, PartialEq, Eq)]
pub enum ProofType {
    Epoch,
    SyncCommittee,
    EpochBatch,
}

/// The `externalId` under which a job of the given kind is submitted.
pub open spec fn external_id_of(t: ProofType) -> Seq<char> {
    match t {
        ProofType::Epoch => "update_epoch"@,
        ProofType::SyncCommittee => "update_sync_committee"@,
        ProofType::EpochBatch => "update_epoch_batch"@,
    }
}

impl ProofType {
    /// The `externalId` that tags a submission of this kind.
    pub fn external_id(&self) -> (r: String)
        ensures
            r@ == external_id_of(*self),
    {
        let mut r = String::from_str("update_");
        match self {
            ProofType::Epoch => r.append("epoch"),
            ProofType::SyncCommittee => r.append("sync_committee"),
            ProofType::EpochBatch => r.append("epoch_batch"),
        }
        proof {
            reveal_strlit("update_");
            reveal_strlit("epoch");
            reveal_strlit("sync_committee");
            reveal_strlit("epoch_batch");
            reveal_strlit("update_epoch");
            reveal_strlit("update_sync_committee");
            reveal_strlit("update_epoch_batch");
        }
        r
    }
}

/// HTTP method of a planned request.
#[derive(Debug, Clone, Copy, PartialEq, Eq)]
pub enum Method {
    Get,
    Post,
}

/// Where the bytes of a multipart part come from.
pub enum PartBody {
    /// The contents of the file at this path.
    FileAt(String),
    /// This text.
    Text(String),
}

/// One field of a multipart form.
pub enum FormField {
    Text { name: String, value: String },
    Part { name: String, file_name: String, mime: String, body: PartBody },
}

/// A request to the prover service, as plain values: what to send where.
pub struct HttpRequest {
    pub method: Method,
    pub url: String,
    /// Query parameters, in order, as `(name, value)`.
    pub query: Vec<(String, String)>,
    /// The media type asked for in the `accept` header.
    pub accept: String,
    /// Multipart form fields, in order; empty for a request without a body.
    pub form: Vec<FormField>,
}

pub enum PartBodyView {
    FileAt(Seq<char>),
    Text(Seq<char>),
}

pub enum FormFieldView {
    Text { name: Seq<char>, value: Seq<char> },
    Part { name: Seq<char>, file_name: Seq<char>, mime: Seq<char>, body: PartBodyView },
}

pub struct HttpRequestView {
    pub method: Method,
    pub url: Seq<char>,
    pub query: Seq<(Seq<char>, Seq<char>)>,
    pub accept: Seq<char>,
    pub form: Seq<FormFieldView>,
}

impl View for PartBody {
    type V = PartBodyView;

    open spec fn view(&self) -> PartBodyView {
        match self {
            PartBody::FileAt(p) => PartBodyView::FileAt(p@),
            PartBody::Text(t) => PartBodyView::Text(t@),
        }
    }
}

impl View for FormField {
    type V = FormFieldView;

    open spec fn view(&self) -> FormFieldView {
        match self {
            FormField::Text { name, value } => FormFieldView::Text { name: name@, value: value@ },
            FormField::Part { name, file_name, mime, body } => FormFieldView::Part {
                name: name@,
                file_name: file_name@,
                mime: mime@,
                body: body@,
            },
        }
    }
}

impl View for HttpRequest {
    type V = HttpRequestView;

    open spec fn view(&self) -> HttpRequestView {
        HttpRequestView {
            method: self.method,
            url: self.url@,
            query: self.query@.map_values(|q: (String, String)| (q.0@, q.1@)),
            accept: self.accept@,
            form: self.form@.map_values(|f: FormField| f@),
        }
    }
}

fn concat2(a: &str, b: &str) -> (r: String)
    ensures
        r@ == a@ + b@,
{
    let mut r = String::from_str(a);
    r.append(b);
    r
}

fn concat3(a: &str, b: &str, c: &str) -> (r: String)
    ensures
        r@ == a@ + b@ + c@,
{
    let mut r = String::from_str(a);
    r.append(b);
    r.append(c);
    r
}

fn text_field(name: &str, value: &str) -> (f: FormField)
    ensures
        f@ == (FormFieldView::Text { name: name@, value: value@ }),
{
    FormField::Text { name: String::from_str(name), value: String::from_str(value) }
}

/// A proof produced by the prover, held as its compact JSON text.
pub struct StarkProof {
    pub proof: String,
}

/// The JSON object `{"proof": <proof>}` that carries a proof.
pub open spec fn stark_proof_json(proof: Seq<char>) -> Seq<char> {
    "{\"proof\":"@ + proof + "}"@
}

impl StarkProof {
    /// The JSON text of this proof wrapped in its `proof` member, as it is uploaded.
    pub fn to_json(&self) -> (r: String)
        ensures
            r@ == stark_proof_json(self.proof@),
    {
        concat3("{\"proof\":", self.proof.as_str(), "}")
    }
}

/// A client of the Atlantic prover service: where it lives and the key it is called with.
pub struct AtlanticClient {
    endpoint: String,
    api_key: String,
}

pub struct AtlanticClientView {
    pub endpoint: Seq<char>,
    pub api_key: Seq<char>,
}

impl View for AtlanticClient {
    type V = AtlanticClientView;

    closed spec fn view(&self) -> AtlanticClientView {
        AtlanticClientView { endpoint: self.endpoint@, api_key: self.api_key@ }
    }
}

/// Submitting a trace: the zipped pie file, then layout, prover and the job's tag.
pub open spec fn batch_form(pie_path: Seq<char>, t: ProofType) -> Seq<FormFieldView> {
    seq![
        FormFieldView::Part {
            name: "pieFile"@,
            file_name: pie_path,
            mime: "application/zip"@,
            body: PartBodyView::FileAt(pie_path),
        },
        FormFieldView::Text { name: "layout"@, value: "auto"@ },
        FormFieldView::Text { name: "prover"@, value: "starkware_sharp"@ },
        FormFieldView::Text { name: "externalId"@, value: external_id_of(t) },
    ]
}

/// Submitting a proof for wrapping: the wrapper program, the proof, and fixed options.
pub open spec fn wrapped_proof_form(program_hash: Seq<char>, proof: Seq<char>) -> Seq<FormFieldView> {
    seq![
        FormFieldView::Text { name: "programHash"@, value: program_hash },
        FormFieldView::Part {
            name: "inputFile"@,
            file_name: "proof.json"@,
            mime: "application/json"@,
            body: PartBodyView::Text(stark_proof_json(proof)),
        },
        FormFieldView::Text { name: "cairoVersion"@, value: "0"@ },
        FormFieldView::Text { name: "mockFactHash"@, value: "false"@ },
        FormFieldView::Text { name: "externalId"@, value: "proof_wrapper"@ },
    ]
}

/// Each proof type is tagged `update_` followed by its own name, so different
/// proof types get different tags.
pub proof fn lemma_external_id_names(t: ProofType, u: ProofType)
    ensures
        t == ProofType::Epoch ==> external_id_of(t) == "update_"@ + "epoch"@,
        t == ProofType::SyncCommittee ==> external_id_of(t) == "update_"@ + "sync_committee"@,
        t == ProofType::EpochBatch ==> external_id_of(t) == "update_"@ + "epoch_batch"@,
        t != u ==> external_id_of(t) != external_id_of(u),
{
    reveal_strlit("update_");
    reveal_strlit("epoch");
    reveal_strlit("sync_committee");
    reveal_strlit("epoch_batch");
    reveal_strlit("update_epoch");
    reveal_strlit("update_sync_committee");
    reveal_strlit("update_epoch_batch");
    assert("update_epoch"@ =~= "update_"@ + "epoch"@);
    assert("update_sync_committee"@ =~= "update_"@ + "sync_committee"@);
    assert("update_epoch_batch"@ =~= "update_"@ + "epoch_batch"@);
    if t != u {
        assert(external_id_of(t).len() != external_id_of(u).len());
    }
}

/// A trace submission's form sends the trace file's contents under `pieFile`
/// and tags the job with the submitted proof type's own id, so submissions of
/// different proof types carry different tags.
pub proof fn lemma_batch_form_tag(pie_path: Seq<char>, t: ProofType, u: ProofType)
    ensures
        batch_form(pie_path, t).len() == 4,
        batch_form(pie_path, t)[0] == (FormFieldView::Part {
            name: "pieFile"@,
            file_name: pie_path,
            mime: "application/zip"@,
            body: PartBodyView::FileAt(pie_path),
        }),
        batch_form(pie_path, t)[3] == (FormFieldView::Text {
            name: "externalId"@,
            value: external_id_of(t),
        }),
        batch_form(pie_path, t)[1] == (FormFieldView::Text { name: "layout"@, value: "auto"@ }),
        batch_form(pie_path, t)[2] == (FormFieldView::Text {
            name: "prover"@,
            value: "starkware_sharp"@,
        }),
        t != u ==> batch_form(pie_path, t)[3] != batch_form(pie_path, u)[3],
{
    lemma_external_id_names(t, u);
}

/// A wrapping submission's form carries the proof under `inputFile` as the
/// text `{"proof":` + proof + `}`, whatever the proof's length or content,
/// which is exactly what `StarkProof::to_json` writes.
pub proof fn lemma_wrapped_proof_form_carries_proof(program_hash: Seq<char>, proof: Seq<char>)
    ensures
        wrapped_proof_form(program_hash, proof).len() == 5,
        wrapped_proof_form(program_hash, proof)[0] == (FormFieldView::Text {
            name: "programHash"@,
            value: program_hash,
        }),
        wrapped_proof_form(program_hash, proof)[1] == (FormFieldView::Part {
            name: "inputFile"@,
            file_name: "proof.json"@,
            mime: "application/json"@,
            body: PartBodyView::Text("{\"proof\":"@ + proof + "}"@),
        }),
        wrapped_proof_form(program_hash, proof)[2] == (FormFieldView::Text {
            name: "cairoVersion"@,
            value: "0"@,
        }),
        wrapped_proof_form(program_hash, proof)[3] == (FormFieldView::Text {
            name: "mockFactHash"@,
            value: "false"@,
        }),
        wrapped_proof_form(program_hash, proof)[4] == (FormFieldView::Text {
            name: "externalId"@,
            value: "proof_wrapper"@,
        }),
        stark_proof_json(proof) == "{\"proof\":"@ + proof + "}"@,
{
}

/// A request to the service that carries the API key and asks for JSON.
pub open spec fn keyed_request(
    c: AtlanticClientView,
    method: Method,
    url: Seq<char>,
    form: Seq<FormFieldView>,
) -> HttpRequestView {
    HttpRequestView {
        method,
        url,
        query: seq![("apiKey"@, c.api_key)],
        accept: "application/json"@,
        form,
    }
}

/// Every request to the service goes to the given URL with the given method
/// and form, carries the client's API key as its one `apiKey` query parameter,
/// and asks for JSON.
pub proof fn lemma_keyed_request_carries_key(
    c: AtlanticClientView,
    method: Method,
    url: Seq<char>,
    form: Seq<FormFieldView>,
)
    ensures
        keyed_request(c, method, url, form).method == method,
        keyed_request(c, method, url, form).url == url,
        keyed_request(c, method, url, form).form == form,
        keyed_request(c, method, url, form).query.len() == 1,
        keyed_request(c, method, url, form).query[0] == ("apiKey"@, c.api_key),
        keyed_request(c, method, url, form).accept == "application/json"@,
{
}

impl AtlanticClient {
    pub fn new(endpoint: String, api_key: String) -> (c: Self)
        ensures
            c@.endpoint == endpoint@,
            c@.api_key == api_key@,
    {
        AtlanticClient { endpoint, api_key }
    }

    pub fn endpoint(&self) -> (r: &str)
        ensures
            r@ == self@.endpoint,
    {
        self.endpoint.as_str()
    }

    pub fn api_key(&self) -> (r: &str)
        ensures
            r@ == self@.api_key,
    {
        self.api_key.as_str()
    }

    fn keyed(&self, method: Method, url: String, form: Vec<FormField>) -> (r: HttpRequest)
        ensures
            r@ == keyed_request(self@, method, url@, form@.map_values(|f: FormField| f@)),
    {
        let query = vec![(String::from_str("apiKey"), self.api_key.clone())];
        let r = HttpRequest { method, url, query, accept: String::from_str("application/json"), form };
        assert(r@.query =~= seq![("apiKey"@, self@.api_key)]);
        r
    }

    /// The request that submits the trace at `pie_path` for proving.
    pub fn submit_batch_request(&self, pie_path: &str, proof_type: ProofType) -> (r: HttpRequest)
        ensures
            r@ == keyed_request(
                self@,
                Method::Post,
                self@.endpoint + "/v1/proof-generation"@,
                batch_form(pie_path@, proof_type),
            ),
            r@.form.len() == 4,
            r@.form[3] == (FormFieldView::Text {
                name: "externalId"@,
                value: external_id_of(proof_type),
            }),
    {
        let url = concat2(self.endpoint.as_str(), "/v1/proof-generation");
        let form = vec![
            FormField::Part {
                name: String::from_str("pieFile"),
                file_name: String::from_str(pie_path),
                mime: String::from_str("application/zip"),
                body: PartBody::FileAt(String::from_str(pie_path)),
            },
            text_field("layout", "auto"),
            text_field("prover", "starkware_sharp"),
            FormField::Text { name: String::from_str("externalId"), value: proof_type.external_id() },
        ];
        let r = self.keyed(Method::Post, url, form);
        assert(r@.form =~= batch_form(pie_path@, proof_type));
        r
    }

    /// The request that submits `proof` for wrapping by the program `program_hash`.
    pub fn submit_wrapped_proof_request(&self, proof: &StarkProof, program_hash: &str) -> (r: HttpRequest)
        ensures
            r@ == keyed_request(
                self@,
                Method::Post,
                self@.endpoint + "/v1/l2/atlantic-query"@,
                wrapped_proof_form(program_hash@, proof.proof@),
            ),
            r@.form.len() == 5,
            r@.form[1] == (FormFieldView::Part {
                name: "inputFile"@,
                file_name: "proof.json"@,
                mime: "application/json"@,
                body: PartBodyView::Text("{\"proof\":"@ + proof.proof@ + "}"@),
            }),
    {
        let url = concat2(self.endpoint.as_str(), "/v1/l2/atlantic-query");
        let form = vec![
            text_field("programHash", program_hash),
            FormField::Part {
                name: String::from_str("inputFile"),
                file_name: String::from_str("proof.json"),
                mime: String::from_str("application/json"),
                body: PartBody::Text(proof.to_json()),
            },
            text_field("cairoVersion", "0"),
            text_field("mockFactHash", "false"),
            text_field("externalId", "proof_wrapper"),
        ];
        let r = self.keyed(Method::Post, url, form);
        assert(r@.form =~= wrapped_proof_form(program_hash@, proof.proof@));
        r
    }

    /// The request that asks for the state of the job `batch_id`.
    pub fn check_batch_status_request(&self, batch_id: &str) -> (r: HttpRequest)
        ensures
            r@ == keyed_request(
                self@,
                Method::Get,
                self@.endpoint + "/v1/atlantic-query/"@ + batch_id@,
                Seq::empty(),
            ),
    {
        let url = concat3(self.endpoint.as_str(), "/v1/atlantic-query/", batch_id);
        let r = self.keyed(Method::Get, url, Vec::new());
        assert(r@.form =~= Seq::<FormFieldView>::empty());
        r
    }
}

/// The request that downloads the proof of job `batch_id` from the proof registry.
pub fn fetch_proof_request(proof_registry: &str, batch_id: &str) -> (r: HttpRequest)
    ensures
        r@ == (HttpRequestView {
            method: Method::Get,
            url: proof_registry@ + "/query_"@ + batch_id@ + "/proof.json"@,
            query: Seq::empty(),
            accept: "application/json"@,
            form: Seq::empty(),
        }),
{
    let mut url = concat3(proof_registry, "/query_", batch_id);
    url.append("/proof.json");
    let r = HttpRequest {
        method: Method::Get,
        url,
        query: Vec::new(),
        accept: String::from_str("application/json"),
        form: Vec::new(),
    };
    assert(r@.query =~= Seq::<(Seq<char>, Seq<char>)>::empty());
    assert(r@.form =~= Seq::<FormFieldView>::empty());
    r
}

/// What the service answered to a submission.
pub enum SubmissionReply {
    /// A status other than success, with the text of the answer.
    Rejected(String),
    /// A success status; the `atlanticQueryId` member of the JSON answer when it is a string.
    Accepted(Option<String>),
}

/// A submission fails exactly when the service refused it or gave no string
/// id; an accepted answer with an id, whatever its length or content, yields
/// exactly that id; a refusal's error quotes the service's text after
/// `Request failed: `.
pub proof fn lemma_submission_outcome_laws(reply: SubmissionReply, r: Result<String, Error>)
    requires
        submission_outcome_ok(reply, r),
    ensures
        r is Err <==> (reply is Rejected || reply matches SubmissionReply::Accepted(None)),
        reply matches SubmissionReply::Accepted(Some(id)) ==> r matches Ok(v) && v@ == id@,
        reply matches SubmissionReply::Rejected(text) ==> r matches Err(Error::InvalidResponse(m))
            && m@.len() == 16 + text@.len() && m@.subrange(16, m@.len() as int) == text@,
        reply matches SubmissionReply::Accepted(None) ==> r matches Err(Error::InvalidResponse(m))
            && m@ == "Missing atlanticQueryId"@,
{
    reveal_strlit("Request failed: ");
    if let SubmissionReply::Rejected(text) = reply {
        if let Err(Error::InvalidResponse(m)) = r {
            assert(m@.subrange(16, m@.len() as int) =~= text@);
        }
    }
}

/// The outcome of a submission for each answer: the job's id, or why there is none.
pub open spec fn submission_outcome_ok(reply: SubmissionReply, r: Result<String, Error>) -> bool {
    match reply {
        SubmissionReply::Rejected(text) => r matches Err(Error::InvalidResponse(m)) && m@
            == "Request failed: "@ + text@,
        SubmissionReply::Accepted(Some(id)) => r matches Ok(v) && v@ == id@,
        SubmissionReply::Accepted(None) => r matches Err(Error::InvalidResponse(m)) && m@
            == "Missing atlanticQueryId"@,
    }
}

/// The job id that a submission yields, or the error that the answer calls for.
pub fn submission_outcome(reply: SubmissionReply) -> (r: Result<String, Error>)
    ensures
        submission_outcome_ok(reply, r),
        r is Err <==> (reply is Rejected || reply matches SubmissionReply::Accepted(None)),
        reply matches SubmissionReply::Accepted(Some(id)) ==> r matches Ok(v) && v@ == id@,
{
    let ghost before = reply;
    let r = match reply {
        SubmissionReply::Rejected(text) => Err(
            Error::InvalidResponse(concat2("Request failed: ", text.as_str())),
        ),
        SubmissionReply::Accepted(Some(id)) => Ok(id),
        SubmissionReply::Accepted(None) => Err(
            Error::InvalidResponse(String::from_str("Missing atlanticQueryId")),
        ),
    };
    proof {
        lemma_submission_outcome_laws(before, r);
    }
    r
}

/// The state of a job given the `atlanticQuery.status` member of the service's
/// answer when it is a string; an error when it is missing.
pub fn batch_status_outcome(status: Option<String>) -> (r: Result<String, Error>)
    ensures
        match status {
            Some(s) => r matches Ok(v) && v@ == s@,
            None => r matches Err(Error::InvalidResponse(m)) && m@ == "Missing status field"@,
        },
{
    match status {
        Some(s) => Ok(s),
        None => Err(Error::InvalidResponse(String::from_str("Missing status field"))),
    }
}

} // verus!
