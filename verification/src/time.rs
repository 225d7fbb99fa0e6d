//! Times of day as they stand in a timetable.

use crate::datetime;
use crate::datetime::{decode_time, encode_time, DecodeError, Hm, Time};
use vstd::prelude::*;

verus! {

/// A time of day that is sent in its compact integer form.
#[derive(Copy, Clone, Eq, PartialEq, Ord, PartialOrd, Hash, Debug)]
pub struct UntisTime(pub Time);

impl View for UntisTime {
    type V = Hm;

    open spec fn view(&self) -> Hm {
        self.0@
    }
}

impl UntisTime {
    /// The time itself.
    pub fn time(&self) -> (r: Time)
        ensures
            r == self.0,
    {
        self.0
    }
}

/// The compact integer form of a time.
pub fn chrono_to_untis_time(time: Time) -> (r: u32)
    ensures
        r == encode_time(time@),
{
    let code: u16 = datetime::chrono_to_untis_time(time);
    code as u32
}

/// The time with the given compact integer form.
pub fn chrono_from_untis_time(value: u32) -> (r: Result<Time, DecodeError>)
    ensures
        match r {
            Ok(time) => decode_time(value as int) == Some(time@),
            Err(e) => e == DecodeError::InvalidTime && decode_time(value as int) is None,
        },
{
    datetime::chrono_from_untis_time(value as i128)
}

} // verus!
