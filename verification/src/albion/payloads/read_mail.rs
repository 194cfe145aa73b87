use vstd::prelude::*;
use crate::packet::parameters::{ParamValue, RawParameters};
use crate::util::{param_i64, param_str, spec_param_i64, spec_param_str};

verus! {

/// The body of a mail the player opened.
#[derive(Clone, Debug, PartialEq, Eq)]
pub struct ReadMail {
    pub mail_id: i64,
    pub mail_string: String,
}

/// `r` is the mail body parameters `p` hold: mail id under key 0 (0 unless
/// an integer), body text under key 1 (empty unless a string).
pub open spec fn is_read_mail(r: ReadMail, p: Map<u8, ParamValue>) -> bool {
    &&& r.mail_id == (match spec_param_i64(p, 0) {
        Some(c) => c,
        None => 0,
    })
    &&& r.mail_string@ == (match spec_param_str(p, 1) {
        Some(t) => t,
        None => Seq::<char>::empty(),
    })
}

impl ReadMail {
    /// Mail id under key 0 (0 unless an integer), body text under key 1
    /// (empty unless a string).
    pub fn from_params(parameters: &RawParameters) -> (r: ReadMail)
        ensures
            is_read_mail(r, parameters.view()),
    {
        let mail_string = match param_str(parameters, 1) {
            Some(t) => t,
            None => String::new(),
        };
        ReadMail { mail_id: param_i64(parameters, 0).unwrap_or(0), mail_string }
    }
}

} // verus!
