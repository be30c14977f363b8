//! The single-target backend check: the report on what the endpoint under
//! `BACKEND_URL` answered. The lookup and the fetch are done by the caller.
use vstd::prelude::*;
use crate::health::HttpReply;
use crate::text::{is_ok_status, is_ok_word};

verus! {

/// The report; `None` stands for a configuration without `BACKEND_URL`.
pub open spec fn backend_text(reply: Option<HttpReply>) -> Seq<char> {
    match reply {
        None => "The backend URL couldn't be found in the environment variables. Please set the BACKEND_URL variable."@,
        Some(h) => if !h.success {
            "Backend is NOT running ❌ — HTTP status: "@ + h.status_line@
        } else {
            match h.json_status {
                None => "Backend is NOT running ❌ — invalid JSON"@,
                Some(st) => if is_ok_word(st@) {
                    "Backend is running ✅"@
                } else {
                    "Backend is NOT running ❌ — status: "@ + st@
                },
            }
        },
    }
}

pub fn backend_report(reply: Option<HttpReply>) -> (r: String)
    ensures
        r@ == backend_text(reply),
{
    match reply {
        None => String::from_str(
            "The backend URL couldn't be found in the environment variables. Please set the BACKEND_URL variable.",
        ),
        Some(h) => {
            if !h.success {
                let mut out = String::from_str("Backend is NOT running ❌ — HTTP status: ");
                out.append(h.status_line.as_str());
                return out;
            }
            match h.json_status {
                None => String::from_str("Backend is NOT running ❌ — invalid JSON"),
                Some(st) => {
                    if is_ok_status(st.as_str()) {
                        String::from_str("Backend is running ✅")
                    } else {
                        let mut out = String::from_str("Backend is NOT running ❌ — status: ");
                        out.append(st.as_str());
                        out
                    }
                },
            }
        },
    }
}

} // verus!
