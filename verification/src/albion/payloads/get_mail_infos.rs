use vstd::prelude::*;
use crate::models::types::{spec_mail_info_type, MailInfoType};
use crate::packet::parameters::{ParamValue, RawParameters};
use crate::util::{dotnet_ticks_to_unix_millis, i64_array, spec_i64_array, spec_string_array, spec_ticks_to_millis, string_array};

verus! {

/// The player's mail listing: parallel columns, one row per mail.
#[derive(Clone, Debug, PartialEq)]
pub struct GetMailInfos {
    pub mail_ids: Vec<i64>,
    pub location_ids: Vec<String>,
    pub types: Vec<MailInfoType>,
    pub received: Vec<i64>,
}

/// `r` is the listing parameters `p` hold: mail ids (key 3), locations
/// (7), kinds (11, by label) and receipt times (12, in .NET ticks); each
/// column keeps the elements of its array that have the right type, and is
/// empty when the key is not an array.
pub open spec fn is_mail_listing(r: GetMailInfos, p: Map<u8, ParamValue>) -> bool {
    &&& r.mail_ids@ == spec_i64_array(p, 3)
    &&& r.location_ids.len() == spec_string_array(p, 7).len()
    &&& forall|i: int|
        0 <= i < r.location_ids.len() ==> (#[trigger] r.location_ids@[i])@ == spec_string_array(
            p,
            7,
        )[i]
    &&& r.types@ == spec_string_array(p, 11).map_values(|t: Seq<char>| spec_mail_info_type(t))
    &&& r.received@ == spec_i64_array(p, 12).map_values(|t: i64| spec_ticks_to_millis(t))
}

impl GetMailInfos {
    /// Mail ids (key 3), locations (7), kinds (11, by label) and receipt
    /// times (12, in .NET ticks); each column keeps the elements of its
    /// array that have the right type, and is empty when the key is not an
    /// array.
    pub fn from_params(parameters: &RawParameters) -> (r: GetMailInfos)
        ensures
            is_mail_listing(r, parameters.view()),
    {
        let labels = string_array(parameters, 11);
        let mut types: Vec<MailInfoType> = Vec::new();
        let mut i: usize = 0;
        while i < labels.len()
            invariant
                i <= labels.len(),
                labels.len() == spec_string_array(parameters.view(), 11).len(),
                forall|j: int| 0 <= j < labels.len() ==> (#[trigger] labels@[j])@ == spec_string_array(parameters.view(), 11)[j],
                types.len() == i,
                forall|j: int| 0 <= j < i ==> #[trigger] types@[j] == spec_mail_info_type(labels@[j]@),
            decreases labels.len() - i,
        {
            types.push(MailInfoType::from_str(labels[i].as_str()));
            i = i + 1;
        }
        let ticks = i64_array(parameters, 12);
        let mut received: Vec<i64> = Vec::new();
        let mut k: usize = 0;
        while k < ticks.len()
            invariant
                k <= ticks.len(),
                received.len() == k,
                forall|j: int| 0 <= j < k ==> #[trigger] received@[j] == spec_ticks_to_millis(ticks@[j]),
            decreases ticks.len() - k,
        {
            received.push(dotnet_ticks_to_unix_millis(ticks[k]));
            k = k + 1;
        }
        let r = GetMailInfos {
            mail_ids: i64_array(parameters, 3),
            location_ids: string_array(parameters, 7),
            types,
            received,
        };
        assert(r.types@ =~= spec_string_array(parameters.view(), 11).map_values(|t: Seq<char>| spec_mail_info_type(t)));
        assert(r.received@ =~= spec_i64_array(parameters.view(), 12).map_values(|t: i64| spec_ticks_to_millis(t)));
        r
    }
}

} // verus!
