//! Setting up BASS: the builder of its initialization arguments.
use vstd::prelude::*;

use crate::bass_error::{error_for_code, BassError};
use crate::bass_flags::{init_table, AsBassFlags, DeviceFlags, InitFlags};
use crate::flag_table::num_of;

verus! {

/// Trusted: calls `bass_sys::BASS_ErrorGetCode()`, the code of the last
/// error BASS met. The code depends on the calls made into BASS before, so
/// nothing is stated of it. bass-sys loads the BASS shared library on its
/// first call and panics when the library cannot be found next to the
/// program; that depends on the machine and is not stated either.
#[verifier::external_body]
pub(crate) fn bass_error_get_code() -> i32 {
    bass_sys::BASS_ErrorGetCode()
}

/// An output device as BASS lists it.
#[derive(Clone, Debug)]
pub struct BassDevice {
    /// The name of the device.
    pub name: String,
    /// The index BASS knows the device by.
    pub id: u32,
    /// The flags BASS reports for the device.
    pub flags: Vec<DeviceFlags>,
}

/// The library handle. BASS stays initialized while it is kept.
pub struct Bass;

/// The arguments BASS is initialized with.
pub struct BassBuilder {
    device_id: i32,
    frequency: u32,
    flags: Vec<InitFlags>,
    window_ptr: usize,
}

impl View for BassBuilder {
    /// The device index, the sample rate, the flags, and the window handle.
    type V = (i32, u32, Seq<InitFlags>, usize);

    closed spec fn view(&self) -> (i32, u32, Seq<InitFlags>, usize) {
        (self.device_id, self.frequency, self.flags@, self.window_ptr)
    }
}

impl Default for BassBuilder {
    /// The default output device (-1), 44100 Hz, no flags, no window.
    fn default() -> (b: Self)
        ensures
            b@ == (-1i32, 44100u32, Seq::<InitFlags>::empty(), 0usize),
    {
        BassBuilder { device_id: -1, frequency: 44100, flags: Vec::new(), window_ptr: 0 }
    }
}

impl BassBuilder {
    /// A builder with the default values.
    pub fn new() -> (b: Self)
        ensures
            b@ == (-1i32, 44100u32, Seq::<InitFlags>::empty(), 0usize),
    {
        Self::default()
    }

    /// Plays on the given device.
    pub fn device(self, device: BassDevice) -> (b: BassBuilder)
        ensures
            b@ == (device.id as i32, self@.1, self@.2, self@.3),
    {
        let mut s = self;
        s.device_id = device.id as i32;
        s
    }

    /// Plays on the device with the given index.
    pub fn device_index(self, device_id: i32) -> (b: BassBuilder)
        ensures
            b@ == (device_id, self@.1, self@.2, self@.3),
    {
        let mut s = self;
        s.device_id = device_id;
        s
    }

    /// Sets the output sample rate.
    pub fn frequency(self, freq: u32) -> (b: BassBuilder)
        ensures
            b@ == (self@.0, freq, self@.2, self@.3),
    {
        let mut s = self;
        s.frequency = freq;
        s
    }

    /// Adds an initialization flag.
    pub fn flag(self, flag: InitFlags) -> (b: BassBuilder)
        ensures
            b@ == (self@.0, self@.1, self@.2.push(flag), self@.3),
    {
        let mut s = self;
        s.flags.push(flag);
        s
    }

    /// Sets the handle of the application's main window (only DirectSound
    /// output needs it), given as its address.
    pub fn window_ptr(self, window_ptr: usize) -> (b: BassBuilder)
        ensures
            b@ == (self@.0, self@.1, self@.2, window_ptr),
    {
        let mut s = self;
        s.window_ptr = window_ptr;
        s
    }

    /// The arguments of `BASS_Init`: the device, the sample rate, the flags
    /// as a BASS bit mask, and the window address.
    pub fn init_arguments(&self) -> (r: (i32, u32, u32, usize))
        ensures
            r == (self@.0, self@.1, num_of(init_table(), self@.2), self@.3),
    {
        let flags = self.flags.clone();
        (self.device_id, self.frequency, flags.to_num(), self.window_ptr)
    }

    /// What the build comes to once `BASS_Init` was called with
    /// `init_arguments` and answered `ret`, `err_code` being BASS's error
    /// code after the call: the error with that code when BASS answered 0,
    /// else BASS is up.
    pub fn build_result(ret: i32, err_code: i32) -> (r: Result<Bass, BassError>)
        ensures
            ret == 0 ==> r == Err::<Bass, BassError>(error_for_code(err_code)),
            ret != 0 ==> r is Ok,
    {
        if ret == 0 {
            Err(BassError::from_code(err_code))
        } else {
            Ok(Bass)
        }
    }
}

impl Bass {
    /// A builder with the default values.
    pub fn builder() -> (b: BassBuilder)
        ensures
            b@ == (-1i32, 44100u32, Seq::<InitFlags>::empty(), 0usize),
    {
        BassBuilder::default()
    }
}

} // verus!
