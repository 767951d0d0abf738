//! HID report identification: the transfer kind and the report number
//! that together name each report of the device.

use vstd::prelude::*;

verus! {

/// The three HID transfer kinds a report can travel on.
#[derive(Clone, Copy, PartialEq, Eq, Debug)]
pub enum ReportType {
    Input,
    Output,
    Feature,
}

impl ReportType {
    /// The kind as encoded in a GET_REPORT / SET_REPORT request.
    pub open spec fn spec_code(self) -> u8 {
        match self {
            ReportType::Input => 1,
            ReportType::Output => 2,
            ReportType::Feature => 3,
        }
    }

    /// The kind as encoded in a GET_REPORT / SET_REPORT request.
    pub fn code(self) -> (r: u8)
        ensures
            r == self.spec_code(),
    {
        match self {
            ReportType::Input => 1,
            ReportType::Output => 2,
            ReportType::Feature => 3,
        }
    }

    /// Decodes a request's kind byte; other values are rejected.
    pub fn try_from(value: u8) -> (r: Result<Self, ()>)
        ensures
            value == 1 ==> r == Ok::<Self, ()>(ReportType::Input),
            value == 2 ==> r == Ok::<Self, ()>(ReportType::Output),
            value == 3 ==> r == Ok::<Self, ()>(ReportType::Feature),
            !(1 <= value <= 3) ==> r == Err::<Self, ()>(()),
    {
        match value {
            1 => Ok(ReportType::Input),
            2 => Ok(ReportType::Output),
            3 => Ok(ReportType::Feature),
            _ => Err(()),
        }
    }
}

/// A report's full name: its transfer kind and its report number.
#[derive(Clone, Copy, PartialEq, Eq, Debug)]
pub struct ReportID(pub ReportType, pub u8);

} // verus!
