use vstd::prelude::*;

verus! {

/// Declares serde_json's JSON value type so that the envelope can carry a
/// payload. The library never inspects a payload; it only passes it through.
#[verifier::external_type_specification]
#[verifier::external_body]
pub struct ExValue(serde_json::Value);

/// Uniform response returned by every command exposed to the front end.
#[derive(Debug, Clone)]
pub struct CommandResponse {
    pub success: bool,
    pub msg: String,
    pub data: Option<serde_json::Value>,
}

impl CommandResponse {
    /// A well-formed envelope never reports failure together with a payload.
    pub open spec fn wf(self) -> bool {
        !self.success ==> self.data is None
    }

    pub fn success(msg: String, data: Option<serde_json::Value>) -> (r: Self)
        ensures
            r.success,
            r.msg@ == msg@,
            r.data == data,
            r.wf(),
    {
        CommandResponse { success: true, msg, data }
    }

    pub fn error(msg: String) -> (r: Self)
        ensures
            !r.success,
            r.msg@ == msg@,
            r.data is None,
            r.wf(),
    {
        CommandResponse { success: false, msg, data: None }
    }
}

} // verus!
