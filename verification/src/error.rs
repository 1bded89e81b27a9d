//! Native status codes, classified into the errors that the backend reports.

use vstd::prelude::*;
use vstd::string::*;

verus! {

/// Catastrophic failure.
pub const E_UNEXPECTED: i32 = -0x7FFF_0001;

/// The operation is not implemented.
pub const E_NOTIMPL: i32 = -0x7FFF_BFFF;

/// The system ran out of memory.
pub const E_OUTOFMEMORY: i32 = -0x7FF8_FFF2;

/// An argument was not valid.
pub const E_INVALIDARG: i32 = -0x7FF8_FFA9;

/// Why a native call failed.
#[derive(Clone, Copy, Debug, PartialEq, Eq, Structural)]
pub enum HResultError {
    Unexpected,
    NotImplemented,
    OutOfMemory,
    InvalidArgument,
    /// A failure code without a name of its own: the code's 32 bits.
    Code(u32),
}

/// Failure of a device operation.
#[derive(Clone, Copy, Debug, PartialEq, Eq, Structural)]
pub enum DeviceError {
    OutOfMemory,
    Lost,
}

/// Failure on the presentation path.
#[derive(Clone, Copy, Debug, PartialEq, Eq)]
pub enum SurfaceError {
    Lost,
    /// Names the stage that failed.
    Other(&'static str),
}

/// The 32 bits of a status code read as an unsigned number.
pub open spec fn code_bits(hr: i32) -> u32 {
    if hr >= 0 {
        hr as u32
    } else {
        (hr + 0x1_0000_0000) as u32
    }
}

/// The failure that a status code stands for, if it stands for one.
pub open spec fn failure_of(hr: i32) -> Option<HResultError> {
    if hr >= 0 {
        None
    } else if hr == E_UNEXPECTED {
        Some(HResultError::Unexpected)
    } else if hr == E_NOTIMPL {
        Some(HResultError::NotImplemented)
    } else if hr == E_OUTOFMEMORY {
        Some(HResultError::OutOfMemory)
    } else if hr == E_INVALIDARG {
        Some(HResultError::InvalidArgument)
    } else {
        Some(HResultError::Code(code_bits(hr)))
    }
}

/// The device error that a failed status code is reported as.
pub open spec fn device_failure_of(hr: i32) -> Option<DeviceError> {
    if hr >= 0 {
        None
    } else if hr == E_OUTOFMEMORY {
        Some(DeviceError::OutOfMemory)
    } else {
        Some(DeviceError::Lost)
    }
}

/// The upper-case hexadecimal digit for a value below 16.
pub open spec fn hex_digit(d: nat) -> char {
    if d == 0 { '0' } else if d == 1 { '1' } else if d == 2 { '2' } else if d == 3 { '3' }
    else if d == 4 { '4' } else if d == 5 { '5' } else if d == 6 { '6' } else if d == 7 { '7' }
    else if d == 8 { '8' } else if d == 9 { '9' } else if d == 10 { 'A' } else if d == 11 { 'B' }
    else if d == 12 { 'C' } else if d == 13 { 'D' } else if d == 14 { 'E' } else { 'F' }
}

/// Upper-case hexadecimal numeral of `n`, without leading zeros.
pub open spec fn hex_upper(n: nat) -> Seq<char>
    decreases n,
{
    if n < 16 {
        seq![hex_digit(n)]
    } else {
        hex_upper(n / 16).push(hex_digit(n % 16))
    }
}

/// The text that describes a failure.
pub open spec fn description_of(e: HResultError) -> Seq<char> {
    match e {
        HResultError::Unexpected => "unexpected"@,
        HResultError::NotImplemented => "not implemented"@,
        HResultError::OutOfMemory => "out of memory"@,
        HResultError::InvalidArgument => "invalid argument"@,
        HResultError::Code(code) => "0x"@ + hex_upper(code as nat),
    }
}

fn hex_digit_str(d: u32) -> (s: &'static str)
    requires
        d < 16,
    ensures
        s@ == seq![hex_digit(d as nat)],
{
    proof {
        reveal_strlit("0");
        reveal_strlit("1");
        reveal_strlit("2");
        reveal_strlit("3");
        reveal_strlit("4");
        reveal_strlit("5");
        reveal_strlit("6");
        reveal_strlit("7");
        reveal_strlit("8");
        reveal_strlit("9");
        reveal_strlit("A");
        reveal_strlit("B");
        reveal_strlit("C");
        reveal_strlit("D");
        reveal_strlit("E");
        reveal_strlit("F");
    }
    let s = if d == 0 { "0" } else if d == 1 { "1" } else if d == 2 { "2" } else if d == 3 { "3" }
    else if d == 4 { "4" } else if d == 5 { "5" } else if d == 6 { "6" } else if d == 7 { "7" }
    else if d == 8 { "8" } else if d == 9 { "9" } else if d == 10 { "A" } else if d == 11 { "B" }
    else if d == 12 { "C" } else if d == 13 { "D" } else if d == 14 { "E" } else { "F" };
    s
}

fn push_hex(out: &mut String, n: u32)
    ensures
        final(out)@ == old(out)@ + hex_upper(n as nat),
    decreases n,
{
    if n >= 16 {
        push_hex(out, n / 16);
    }
    out.append(hex_digit_str(n % 16));
}

impl HResultError {
    /// Human-readable description: a fixed phrase for the named failures, the
    /// code in hexadecimal for the others.
    pub fn description(&self) -> (text: String)
        ensures
            text@ == description_of(*self),
    {
        match self {
            HResultError::Unexpected => "unexpected".to_owned(),
            HResultError::NotImplemented => "not implemented".to_owned(),
            HResultError::OutOfMemory => "out of memory".to_owned(),
            HResultError::InvalidArgument => "invalid argument".to_owned(),
            HResultError::Code(code) => {
                let mut text = "0x".to_owned();
                push_hex(&mut text, *code);
                text
            },
        }
    }
}

/// A native status code, alone or beside the value that the call produced.
pub trait HResult<O>: Sized {
    /// The status code.
    spec fn status(&self) -> i32;

    /// The value handed on when the code reports success.
    spec fn payload(&self) -> O;

    /// Classifies the code: success hands the value on, failure names its cause.
    fn into_result(self) -> (r: Result<O, HResultError>)
        ensures
            r == match failure_of(self.status()) {
                None => Ok::<O, HResultError>(self.payload()),
                Some(e) => Err::<O, HResultError>(e),
            },
    ;

    /// Classifies the code for a device operation: running out of memory is
    /// reported as such, every other failure as a lost device. `description`
    /// names the operation and has no part in the result.
    fn into_device_result(self, description: &str) -> (r: Result<O, DeviceError>)
        ensures
            r == match device_failure_of(self.status()) {
                None => Ok::<O, DeviceError>(self.payload()),
                Some(e) => Err::<O, DeviceError>(e),
            },
    ;
}

impl HResult<()> for i32 {
    open spec fn status(&self) -> i32 {
        *self
    }

    open spec fn payload(&self) -> () {
        ()
    }

    fn into_result(self) -> (r: Result<(), HResultError>) {
        if self >= 0 {
            return Ok(());
        }
        let e = if self == E_UNEXPECTED {
            HResultError::Unexpected
        } else if self == E_NOTIMPL {
            HResultError::NotImplemented
        } else if self == E_OUTOFMEMORY {
            HResultError::OutOfMemory
        } else if self == E_INVALIDARG {
            HResultError::InvalidArgument
        } else {
            let low: u32 = (self - i32::MIN) as u32;
            HResultError::Code(low + 0x8000_0000)
        };
        Err(e)
    }

    fn into_device_result(self, description: &str) -> (r: Result<(), DeviceError>) {
        match self.into_result() {
            Ok(()) => Ok(()),
            Err(_) => {
                if self == E_OUTOFMEMORY {
                    Err(DeviceError::OutOfMemory)
                } else {
                    Err(DeviceError::Lost)
                }
            },
        }
    }
}

impl<T> HResult<T> for (T, i32) {
    open spec fn status(&self) -> i32 {
        self.1
    }

    open spec fn payload(&self) -> T {
        self.0
    }

    fn into_result(self) -> (r: Result<T, HResultError>) {
        match self.1.into_result() {
            Ok(()) => Ok(self.0),
            Err(e) => Err(e),
        }
    }

    fn into_device_result(self, description: &str) -> (r: Result<T, DeviceError>) {
        match self.1.into_device_result(description) {
            Ok(()) => Ok(self.0),
            Err(e) => Err(e),
        }
    }
}

} // verus!
