use bankai::atlantic::{
    batch_status_outcome, fetch_proof_request, submission_outcome, AtlanticClient, FormField,
    HttpRequest, Method, PartBody, ProofType, StarkProof, SubmissionReply,
};
use bankai::error::{BankaiCoreError, Error};

fn client() -> AtlanticClient {
    AtlanticClient::new("https://atlantic.example".to_string(), "KEY".to_string())
}

fn text(f: &FormField) -> (String, String) {
    match f {
        FormField::Text { name, value } => (name.clone(), value.clone()),
        _ => panic!("expected a text field"),
    }
}

fn keyed(r: &HttpRequest) {
    assert_eq!(r.query, vec![("apiKey".to_string(), "KEY".to_string())]);
    assert_eq!(r.accept, "application/json");
}

#[test]
fn client_keeps_endpoint_and_key() {
    let c = client();
    assert_eq!(c.endpoint(), "https://atlantic.example");
    assert_eq!(c.api_key(), "KEY");
}

#[test]
fn external_ids() {
    assert_eq!(ProofType::Epoch.external_id(), "update_epoch");
    assert_eq!(ProofType::SyncCommittee.external_id(), "update_sync_committee");
    assert_eq!(ProofType::EpochBatch.external_id(), "update_epoch_batch");
}

#[test]
fn batch_submission_plan() {
    let r = client().submit_batch_request("batches/epoch_1.zip", ProofType::EpochBatch);
    assert_eq!(r.method, Method::Post);
    assert_eq!(r.url, "https://atlantic.example/v1/proof-generation");
    keyed(&r);
    assert_eq!(r.form.len(), 4);
    match &r.form[0] {
        FormField::Part { name, file_name, mime, body } => {
            assert_eq!(name, "pieFile");
            assert_eq!(file_name, "batches/epoch_1.zip");
            assert_eq!(mime, "application/zip");
            match body {
                PartBody::FileAt(p) => assert_eq!(p, "batches/epoch_1.zip"),
                _ => panic!("the pie is read from its file"),
            }
        }
        _ => panic!("expected the pie part first"),
    }
    assert_eq!(text(&r.form[1]), ("layout".to_string(), "auto".to_string()));
    assert_eq!(text(&r.form[2]), ("prover".to_string(), "starkware_sharp".to_string()));
    assert_eq!(text(&r.form[3]), ("externalId".to_string(), "update_epoch_batch".to_string()));
}

#[test]
fn wrapped_proof_plan() {
    let proof = StarkProof { proof: "{\"a\":1}".to_string() };
    assert_eq!(proof.to_json(), "{\"proof\":{\"a\":1}}");
    let r = client().submit_wrapped_proof_request(&proof, "0x193641");
    assert_eq!(r.method, Method::Post);
    assert_eq!(r.url, "https://atlantic.example/v1/l2/atlantic-query");
    keyed(&r);
    assert_eq!(r.form.len(), 5);
    assert_eq!(text(&r.form[0]), ("programHash".to_string(), "0x193641".to_string()));
    match &r.form[1] {
        FormField::Part { name, file_name, mime, body } => {
            assert_eq!(name, "inputFile");
            assert_eq!(file_name, "proof.json");
            assert_eq!(mime, "application/json");
            match body {
                PartBody::Text(t) => assert_eq!(t, "{\"proof\":{\"a\":1}}"),
                _ => panic!("the proof is sent as text"),
            }
        }
        _ => panic!("expected the proof part second"),
    }
    assert_eq!(text(&r.form[2]), ("cairoVersion".to_string(), "0".to_string()));
    assert_eq!(text(&r.form[3]), ("mockFactHash".to_string(), "false".to_string()));
    assert_eq!(text(&r.form[4]), ("externalId".to_string(), "proof_wrapper".to_string()));
}

#[test]
fn status_plan() {
    let r = client().check_batch_status_request("01JABC");
    assert_eq!(r.method, Method::Get);
    assert_eq!(r.url, "https://atlantic.example/v1/atlantic-query/01JABC");
    keyed(&r);
    assert!(r.form.is_empty());
}

#[test]
fn proof_download_plan() {
    let r = fetch_proof_request("https://registry.example/proofs", "01JABC");
    assert_eq!(r.method, Method::Get);
    assert_eq!(r.url, "https://registry.example/proofs/query_01JABC/proof.json");
    assert!(r.query.is_empty());
    assert_eq!(r.accept, "application/json");
    assert!(r.form.is_empty());
}

#[test]
fn accepted_submission_yields_its_id() {
    assert_eq!(
        submission_outcome(SubmissionReply::Accepted(Some("01JQUERY".to_string()))),
        Ok("01JQUERY".to_string())
    );
}

#[test]
fn accepted_submission_without_id() {
    assert_eq!(
        submission_outcome(SubmissionReply::Accepted(None)),
        Err(Error::InvalidResponse("Missing atlanticQueryId".to_string()))
    );
}

#[test]
fn rejected_submission() {
    assert_eq!(
        submission_outcome(SubmissionReply::Rejected("bad key".to_string())),
        Err(Error::InvalidResponse("Request failed: bad key".to_string()))
    );
}

#[test]
fn batch_status() {
    assert_eq!(batch_status_outcome(Some("DONE".to_string())), Ok("DONE".to_string()));
    assert_eq!(
        batch_status_outcome(None),
        Err(Error::InvalidResponse("Missing status field".to_string()))
    );
}

#[test]
fn core_error_messages() {
    assert_eq!(BankaiCoreError::Proof("x".to_string()).message(), "Proof error: x");
    assert_eq!(BankaiCoreError::Database("down".to_string()).message(), "Database error: down");
    assert_eq!(BankaiCoreError::Client("c".to_string()).message(), "Client error: c");
    assert_eq!(BankaiCoreError::Contract("k".to_string()).message(), "Contract error: k");
    assert_eq!(BankaiCoreError::Utils("u".to_string()).message(), "Utils error: u");
}
