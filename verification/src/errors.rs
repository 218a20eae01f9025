//! Error messages for people: the text of an error, cleaned of type names and
//! mapped to a fixed sentence for the common connection and configuration
//! failures.
use vstd::prelude::*;
use crate::text::{contains, replace_all, trim, chars_of, contains_chars, replace_chars, trim_chars, string_of, owned};

verus! {

/// The message shown when the cluster cannot be reached.
pub open spec fn connect_failed_message() -> Seq<char> {
    "Failed to connect to Kubernetes cluster. Please check your network connection or cluster configuration"@
}

/// The message shown when an operation runs out of time.
pub open spec fn timed_out_message() -> Seq<char> {
    "Operation timed out. Please try again later"@
}

/// The cleaned message for the text `e` of an error. A client error loses its
/// "client error (" opening and its closing brackets, a "Connect" in it reads
/// "Connection failed", and a bare "client error" prefix reads
/// "Connection error"; the words inserted are not rewritten again.
pub open spec fn cleaned_error(e: Seq<char>) -> Seq<char> {
    if contains(e, "client error (Connect)"@) {
        connect_failed_message()
    } else if contains(e, "client error"@) {
        trim(
            replace_all(
                replace_all(
                    replace_all(
                        replace_all(e, "client error ("@, ""@),
                        "Connect"@,
                        "Connection failed"@,
                    ),
                    "client error"@,
                    "Connection error"@,
                ),
                ")"@,
                ""@,
            ),
        )
    } else if contains(e, "failed to load kubeconfig"@) {
        "Failed to load kubeconfig file"@
    } else if contains(e, "failed to infer kube config"@) {
        "Failed to auto-detect Kubernetes configuration"@
    } else if contains(e, "timeout"@) {
        timed_out_message()
    } else {
        trim(replace_all(replace_all(e, "kube::Error("@, ""@), "kube::"@, ""@))
    }
}

/// The message for a timed-out operation.
pub fn timed_out_text() -> (r: String)
    ensures
        r@ == timed_out_message(),
{
    owned("Operation timed out. Please try again later")
}

/// Turns the text of an error into a message for people: connection and
/// configuration failures get a fixed sentence, and type names such as
/// `kube::Error(` are removed from the rest.
pub fn format_error(error_text: &str) -> (r: String)
    ensures
        r@ == cleaned_error(error_text@),
{
    let e = chars_of(error_text);
    if contains_chars(&e, &chars_of("client error (Connect)")) {
        owned(
            "Failed to connect to Kubernetes cluster. Please check your network connection or cluster configuration",
        )
    } else if contains_chars(&e, &chars_of("client error")) {
        proof {
            reveal_strlit("client error (");
            reveal_strlit("client error");
            reveal_strlit("Connect");
            reveal_strlit(")");
        }
        let a = replace_chars(&e, "client error (", "");
        let b = replace_chars(&a, "Connect", "Connection failed");
        let c = replace_chars(&b, "client error", "Connection error");
        let d = replace_chars(&c, ")", "");
        let t = trim_chars(&d);
        string_of(&t)
    } else if contains_chars(&e, &chars_of("failed to load kubeconfig")) {
        owned("Failed to load kubeconfig file")
    } else if contains_chars(&e, &chars_of("failed to infer kube config")) {
        owned("Failed to auto-detect Kubernetes configuration")
    } else if contains_chars(&e, &chars_of("timeout")) {
        timed_out_text()
    } else {
        proof {
            reveal_strlit("kube::Error(");
            reveal_strlit("kube::");
        }
        let a = replace_chars(&e, "kube::Error(", "");
        let b = replace_chars(&a, "kube::", "");
        let t = trim_chars(&b);
        string_of(&t)
    }
}

} // verus!
