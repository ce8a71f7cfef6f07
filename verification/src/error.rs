use vstd::prelude::*;
use vstd::string::*;

verus! {

/// Errors of the client: each carries the text of what went wrong.
#[derive(Debug, Clone, PartialEq, Eq)]
pub enum Error {
    /// Reading a local file failed.
    IoError(String),
    /// The transport to the Atlantic prover failed.
    AtlanticError(String),
    /// The prover answered with something the client cannot use.
    InvalidResponse(String),
    /// A value could not be (de)serialised.
    DeserializeError(String),
}

/// Errors of the core crate, one variant per subsystem; each carries the
/// rendered message of the subsystem's own error.
#[derive(Debug, Clone, PartialEq, Eq)]
pub enum BankaiCoreError {
    Proof(String),
    Database(String),
    Client(String),
    Contract(String),
    Utils(String),
}

/// The message a `BankaiCoreError` renders to: a subsystem prefix, then the inner message.
pub open spec fn core_error_message(e: BankaiCoreError) -> Seq<char> {
    match e {
        BankaiCoreError::Proof(m) => "Proof error: "@ + m@,
        BankaiCoreError::Database(m) => "Database error: "@ + m@,
        BankaiCoreError::Client(m) => "Client error: "@ + m@,
        BankaiCoreError::Contract(m) => "Contract error: "@ + m@,
        BankaiCoreError::Utils(m) => "Utils error: "@ + m@,
    }
}

/// The inner error's message of a `BankaiCoreError`.
pub open spec fn inner_message(e: BankaiCoreError) -> Seq<char> {
    match e {
        BankaiCoreError::Proof(m) => m@,
        BankaiCoreError::Database(m) => m@,
        BankaiCoreError::Client(m) => m@,
        BankaiCoreError::Contract(m) => m@,
        BankaiCoreError::Utils(m) => m@,
    }
}

/// A core error's message ends with the inner error's whole message, after a
/// subsystem prefix that ends in `": "`; errors of different subsystems have
/// different prefixes.
pub proof fn lemma_core_error_message_shape(e: BankaiCoreError, f: BankaiCoreError)
    ensures
        ({
            let msg = core_error_message(e);
            let k = msg.len() - inner_message(e).len();
            &&& k >= 2
            &&& msg.subrange(k, msg.len() as int) == inner_message(e)
            &&& msg[k - 2] == ':' && msg[k - 1] == ' '
        }),
        ({
            let ke = core_error_message(e).len() - inner_message(e).len();
            let kf = core_error_message(f).len() - inner_message(f).len();
            !(e is Proof && f is Proof) && !(e is Database && f is Database) && !(e is Client && f
                is Client) && !(e is Contract && f is Contract) && !(e is Utils && f is Utils)
                ==> core_error_message(e).subrange(0, ke) != core_error_message(f).subrange(0, kf)
        }),
{
    reveal_strlit("Proof error: ");
    reveal_strlit("Database error: ");
    reveal_strlit("Client error: ");
    reveal_strlit("Contract error: ");
    reveal_strlit("Utils error: ");
    let msg = core_error_message(e);
    let k = msg.len() - inner_message(e).len();
    assert(msg.subrange(k, msg.len() as int) =~= inner_message(e));
    let mf = core_error_message(f);
    let kf = mf.len() - inner_message(f).len();
    assert(msg.subrange(0, k).len() == k);
    assert(mf.subrange(0, kf).len() == kf);
    if msg.subrange(0, k) == mf.subrange(0, kf) {
        assert(msg.subrange(0, k)[0] == mf.subrange(0, kf)[0]);
        assert(msg.subrange(0, k)[1] == mf.subrange(0, kf)[1]);
    }
}

fn prefixed(prefix: &str, inner: &String) -> (r: String)
    ensures
        r@ == prefix@ + inner@,
{
    let mut r = String::from_str(prefix);
    r.append(inner.as_str());
    r
}

impl BankaiCoreError {
    /// The human-readable message of this error.
    pub fn message(&self) -> (r: String)
        ensures
            r@ == core_error_message(*self),
    {
        match self {
            BankaiCoreError::Proof(m) => prefixed("Proof error: ", m),
            BankaiCoreError::Database(m) => prefixed("Database error: ", m),
            BankaiCoreError::Client(m) => prefixed("Client error: ", m),
            BankaiCoreError::Contract(m) => prefixed("Contract error: ", m),
            BankaiCoreError::Utils(m) => prefixed("Utils error: ", m),
        }
    }
}

} // verus!
