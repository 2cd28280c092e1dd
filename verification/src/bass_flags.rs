//! BASS flag enums and their conversion to and from BASS bit masks.
use vstd::prelude::*;

use crate::flag_table::{
    flags_in, lemma_flags_in_num_of, lemma_num_of_flags_in, mask_of, num_of, single_bit,
    well_formed_table,
};

verus! {

/// Reads the set values of a BASS bit mask.
pub trait ToBassFlags<T> {
    /// The values whose bits are set in the mask, in table order.
    spec fn flags_spec(&self) -> Seq<T>;

    /// The values whose bits are set, in table order.
    fn to_flags(&self) -> (list: Vec<T>)
        ensures
            list@ == self.flags_spec(),
    ;
}

/// Builds a BASS bit mask from a list of values.
pub trait AsBassFlags {
    /// The union of the bits of the listed values.
    fn to_num(self) -> u32;
}

/// The BASS value of `BASS_DEVICE_LATENCY`.
pub const BASS_DEVICE_LATENCY: u32 = 0x100;

/// The BASS value of `BASS_DEVICE_16BITS`.
pub const BASS_DEVICE_16BITS: u32 = 0x8;

/// The BASS value of `BASS_DEVICE_MONO`.
pub const BASS_DEVICE_MONO: u32 = 0x2;

/// The BASS value of `BASS_DEVICE_STEREO`.
pub const BASS_DEVICE_STEREO: u32 = 0x8000;

/// The BASS value of `BASS_DEVICE_NOSPEAKER`.
pub const BASS_DEVICE_NOSPEAKER: u32 = 0x1000;

/// The BASS value of `BASS_DEVICE_FREQ`.
pub const BASS_DEVICE_FREQ: u32 = 0x4000;

/// The BASS value of `BASS_DEVICE_DSOUND`.
pub const BASS_DEVICE_DSOUND: u32 = 0x40000;

/// The BASS value of `BASS_DEVICE_AUDIOTRACK`.
pub const BASS_DEVICE_AUDIOTRACK: u32 = 0x20000;

/// The BASS value of `BASS_DEVICE_DMIX`.
pub const BASS_DEVICE_DMIX: u32 = 0x2000;

/// BASS initialization flags.
#[derive(Clone, Copy, PartialEq, Eq, Debug, Structural)]
pub enum InitFlags {
    /// Calculates the device latency.
    Latency,
    /// Limits output to 16 bit.
    SixteenBit,
    /// Mono output.
    Mono,
    /// Limits output to stereo.
    Stereo,
    /// Ignores the speaker arrangement.
    NoSpeaker,
    /// Sets the device sample rate.
    Frequency,
    /// Uses DirectSound output.
    DirectSound,
    /// Uses AudioTrack output.
    AudioTrack,
    /// Uses the ALSA "dmix" plugin.
    DMix,
}

/// The (bit, value) table of `InitFlags`, in the order BASS flags are read.
pub open spec fn init_table() -> Seq<(u32, InitFlags)> {
    seq![(BASS_DEVICE_LATENCY, InitFlags::Latency), (BASS_DEVICE_16BITS, InitFlags::SixteenBit), (BASS_DEVICE_MONO, InitFlags::Mono), (BASS_DEVICE_STEREO, InitFlags::Stereo), (BASS_DEVICE_NOSPEAKER, InitFlags::NoSpeaker), (BASS_DEVICE_FREQ, InitFlags::Frequency), (BASS_DEVICE_DSOUND, InitFlags::DirectSound), (BASS_DEVICE_AUDIOTRACK, InitFlags::AudioTrack), (BASS_DEVICE_DMIX, InitFlags::DMix)]
}

fn init_table_vec() -> (t: Vec<(u32, InitFlags)>)
    ensures
        t@ == init_table(),
{
    let mut t: Vec<(u32, InitFlags)> = Vec::new();
    t.push((BASS_DEVICE_LATENCY, InitFlags::Latency));
    t.push((BASS_DEVICE_16BITS, InitFlags::SixteenBit));
    t.push((BASS_DEVICE_MONO, InitFlags::Mono));
    t.push((BASS_DEVICE_STEREO, InitFlags::Stereo));
    t.push((BASS_DEVICE_NOSPEAKER, InitFlags::NoSpeaker));
    t.push((BASS_DEVICE_FREQ, InitFlags::Frequency));
    t.push((BASS_DEVICE_DSOUND, InitFlags::DirectSound));
    t.push((BASS_DEVICE_AUDIOTRACK, InitFlags::AudioTrack));
    t.push((BASS_DEVICE_DMIX, InitFlags::DMix));
    assert(t@ =~= init_table());
    t
}

fn contains_init(v: &Vec<InitFlags>, x: InitFlags) -> (b: bool)
    ensures
        b == v@.contains(x),
{
    let mut i: usize = 0;
    while i < v.len()
        invariant
            i <= v.len(),
            forall|j: int| 0 <= j < i ==> v@[j] != x,
        decreases v.len() - i,
    {
        if v[i] == x {
            return true;
        }
        i = i + 1;
    }
    false
}

impl ToBassFlags<InitFlags> for u32 {
    open spec fn flags_spec(&self) -> Seq<InitFlags> {
        flags_in(init_table(), *self)
    }

    fn to_flags(&self) -> (list: Vec<InitFlags>) {
        let table = init_table_vec();
        let mut list: Vec<InitFlags> = Vec::new();
        let mut k: usize = 0;
        while k < table.len()
            invariant
                k <= table.len(),
                table@ == init_table(),
                list@ == flags_in(table@.take(k as int), *self),
            decreases table.len() - k,
        {
            let (bit, value) = table[k];
            assert(table@.take(k + 1).drop_last() =~= table@.take(k as int));
            if (*self & bit) > 0 {
                list.push(value);
            }
            k = k + 1;
        }
        assert(table@.take(table.len() as int) =~= table@);
        list
    }
}

impl AsBassFlags for Vec<InitFlags> {
    fn to_num(self) -> (total: u32)
        ensures
            total == num_of(init_table(), self@),
    {
        let table = init_table_vec();
        let mut total: u32 = 0;
        let mut k: usize = 0;
        while k < table.len()
            invariant
                k <= table.len(),
                table@ == init_table(),
                total == num_of(table@.take(k as int), self@),
            decreases table.len() - k,
        {
            let (flag, value) = table[k];
            assert(table@.take(k + 1).drop_last() =~= table@.take(k as int));
            if contains_init(&self, value) {
                total = total | flag;
            }
            k = k + 1;
        }
        assert(table@.take(table.len() as int) =~= table@);
        total
    }
}

/// The `InitFlags` table is well formed: single bits, no bit or value twice.
pub proof fn lemma_init_table_well_formed()
    ensures
        well_formed_table(init_table()),
{
    let t = init_table();
    assert(t[0] == (BASS_DEVICE_LATENCY, InitFlags::Latency));
    assert(t[1] == (BASS_DEVICE_16BITS, InitFlags::SixteenBit));
    assert(t[2] == (BASS_DEVICE_MONO, InitFlags::Mono));
    assert(t[3] == (BASS_DEVICE_STEREO, InitFlags::Stereo));
    assert(t[4] == (BASS_DEVICE_NOSPEAKER, InitFlags::NoSpeaker));
    assert(t[5] == (BASS_DEVICE_FREQ, InitFlags::Frequency));
    assert(t[6] == (BASS_DEVICE_DSOUND, InitFlags::DirectSound));
    assert(t[7] == (BASS_DEVICE_AUDIOTRACK, InitFlags::AudioTrack));
    assert(t[8] == (BASS_DEVICE_DMIX, InitFlags::DMix));
    assert(single_bit(BASS_DEVICE_LATENCY) && single_bit(BASS_DEVICE_16BITS) && single_bit(BASS_DEVICE_MONO) && single_bit(BASS_DEVICE_STEREO) && single_bit(BASS_DEVICE_NOSPEAKER) && single_bit(BASS_DEVICE_FREQ) && single_bit(BASS_DEVICE_DSOUND) && single_bit(BASS_DEVICE_AUDIOTRACK) && single_bit(BASS_DEVICE_DMIX)) by (bit_vector);
    assert(BASS_DEVICE_LATENCY & BASS_DEVICE_16BITS == 0 && BASS_DEVICE_LATENCY & BASS_DEVICE_MONO == 0 && BASS_DEVICE_LATENCY & BASS_DEVICE_STEREO == 0 && BASS_DEVICE_LATENCY & BASS_DEVICE_NOSPEAKER == 0 && BASS_DEVICE_LATENCY & BASS_DEVICE_FREQ == 0 && BASS_DEVICE_LATENCY & BASS_DEVICE_DSOUND == 0 && BASS_DEVICE_LATENCY & BASS_DEVICE_AUDIOTRACK == 0 && BASS_DEVICE_LATENCY & BASS_DEVICE_DMIX == 0 && BASS_DEVICE_16BITS & BASS_DEVICE_LATENCY == 0 && BASS_DEVICE_16BITS & BASS_DEVICE_MONO == 0 && BASS_DEVICE_16BITS & BASS_DEVICE_STEREO == 0 && BASS_DEVICE_16BITS & BASS_DEVICE_NOSPEAKER == 0 && BASS_DEVICE_16BITS & BASS_DEVICE_FREQ == 0 && BASS_DEVICE_16BITS & BASS_DEVICE_DSOUND == 0 && BASS_DEVICE_16BITS & BASS_DEVICE_AUDIOTRACK == 0 && BASS_DEVICE_16BITS & BASS_DEVICE_DMIX == 0 && BASS_DEVICE_MONO & BASS_DEVICE_LATENCY == 0 && BASS_DEVICE_MONO & BASS_DEVICE_16BITS == 0 && BASS_DEVICE_MONO & BASS_DEVICE_STEREO == 0 && BASS_DEVICE_MONO & BASS_DEVICE_NOSPEAKER == 0 && BASS_DEVICE_MONO & BASS_DEVICE_FREQ == 0 && BASS_DEVICE_MONO & BASS_DEVICE_DSOUND == 0 && BASS_DEVICE_MONO & BASS_DEVICE_AUDIOTRACK == 0 && BASS_DEVICE_MONO & BASS_DEVICE_DMIX == 0 && BASS_DEVICE_STEREO & BASS_DEVICE_LATENCY == 0 && BASS_DEVICE_STEREO & BASS_DEVICE_16BITS == 0 && BASS_DEVICE_STEREO & BASS_DEVICE_MONO == 0 && BASS_DEVICE_STEREO & BASS_DEVICE_NOSPEAKER == 0 && BASS_DEVICE_STEREO & BASS_DEVICE_FREQ == 0 && BASS_DEVICE_STEREO & BASS_DEVICE_DSOUND == 0 && BASS_DEVICE_STEREO & BASS_DEVICE_AUDIOTRACK == 0 && BASS_DEVICE_STEREO & BASS_DEVICE_DMIX == 0 && BASS_DEVICE_NOSPEAKER & BASS_DEVICE_LATENCY == 0 && BASS_DEVICE_NOSPEAKER & BASS_DEVICE_16BITS == 0 && BASS_DEVICE_NOSPEAKER & BASS_DEVICE_MONO == 0 && BASS_DEVICE_NOSPEAKER & BASS_DEVICE_STEREO == 0 && BASS_DEVICE_NOSPEAKER & BASS_DEVICE_FREQ == 0 && BASS_DEVICE_NOSPEAKER & BASS_DEVICE_DSOUND == 0 && BASS_DEVICE_NOSPEAKER & BASS_DEVICE_AUDIOTRACK == 0 && BASS_DEVICE_NOSPEAKER & BASS_DEVICE_DMIX == 0 && BASS_DEVICE_FREQ & BASS_DEVICE_LATENCY == 0 && BASS_DEVICE_FREQ & BASS_DEVICE_16BITS == 0 && BASS_DEVICE_FREQ & BASS_DEVICE_MONO == 0 && BASS_DEVICE_FREQ & BASS_DEVICE_STEREO == 0 && BASS_DEVICE_FREQ & BASS_DEVICE_NOSPEAKER == 0 && BASS_DEVICE_FREQ & BASS_DEVICE_DSOUND == 0 && BASS_DEVICE_FREQ & BASS_DEVICE_AUDIOTRACK == 0 && BASS_DEVICE_FREQ & BASS_DEVICE_DMIX == 0 && BASS_DEVICE_DSOUND & BASS_DEVICE_LATENCY == 0 && BASS_DEVICE_DSOUND & BASS_DEVICE_16BITS == 0 && BASS_DEVICE_DSOUND & BASS_DEVICE_MONO == 0 && BASS_DEVICE_DSOUND & BASS_DEVICE_STEREO == 0 && BASS_DEVICE_DSOUND & BASS_DEVICE_NOSPEAKER == 0 && BASS_DEVICE_DSOUND & BASS_DEVICE_FREQ == 0 && BASS_DEVICE_DSOUND & BASS_DEVICE_AUDIOTRACK == 0 && BASS_DEVICE_DSOUND & BASS_DEVICE_DMIX == 0 && BASS_DEVICE_AUDIOTRACK & BASS_DEVICE_LATENCY == 0 && BASS_DEVICE_AUDIOTRACK & BASS_DEVICE_16BITS == 0 && BASS_DEVICE_AUDIOTRACK & BASS_DEVICE_MONO == 0 && BASS_DEVICE_AUDIOTRACK & BASS_DEVICE_STEREO == 0 && BASS_DEVICE_AUDIOTRACK & BASS_DEVICE_NOSPEAKER == 0 && BASS_DEVICE_AUDIOTRACK & BASS_DEVICE_FREQ == 0 && BASS_DEVICE_AUDIOTRACK & BASS_DEVICE_DSOUND == 0 && BASS_DEVICE_AUDIOTRACK & BASS_DEVICE_DMIX == 0 && BASS_DEVICE_DMIX & BASS_DEVICE_LATENCY == 0 && BASS_DEVICE_DMIX & BASS_DEVICE_16BITS == 0 && BASS_DEVICE_DMIX & BASS_DEVICE_MONO == 0 && BASS_DEVICE_DMIX & BASS_DEVICE_STEREO == 0 && BASS_DEVICE_DMIX & BASS_DEVICE_NOSPEAKER == 0 && BASS_DEVICE_DMIX & BASS_DEVICE_FREQ == 0 && BASS_DEVICE_DMIX & BASS_DEVICE_DSOUND == 0 && BASS_DEVICE_DMIX & BASS_DEVICE_AUDIOTRACK == 0) by (bit_vector);
    assert forall|i: int| 0 <= i < t.len() implies #[trigger] single_bit(t[i].0) by {
        assert(i == 0 || i == 1 || i == 2 || i == 3 || i == 4 || i == 5 || i == 6 || i == 7 || i == 8);
    }
    assert forall|i: int, j: int|
        0 <= i < t.len() && 0 <= j < t.len() && i != j implies (#[trigger] t[i].0
        & #[trigger] t[j].0) == 0 by {
        assert(i == 0 || i == 1 || i == 2 || i == 3 || i == 4 || i == 5 || i == 6 || i == 7 || i == 8);
        assert(j == 0 || j == 1 || j == 2 || j == 3 || j == 4 || j == 5 || j == 6 || j == 7 || j == 8);
    }
    assert forall|i: int, j: int|
        0 <= i < t.len() && 0 <= j < t.len() && i != j implies #[trigger] t[i].1
        != #[trigger] t[j].1 by {
        assert(i == 0 || i == 1 || i == 2 || i == 3 || i == 4 || i == 5 || i == 6 || i == 7 || i == 8);
        assert(j == 0 || j == 1 || j == 2 || j == 3 || j == 4 || j == 5 || j == 6 || j == 7 || j == 8);
    }
}

/// Reading the flags of a mask and turning them back into a mask keeps
/// exactly the bits of `n` that `InitFlags` knows of.
pub proof fn lemma_init_mask_roundtrip(n: u32)
    ensures
        num_of(init_table(), flags_in(init_table(), n)) == n & mask_of(init_table()),
{
    lemma_init_table_well_formed();
    lemma_num_of_flags_in(init_table(), n);
}

/// Turning a list of values into a mask and reading the flags back gives
/// the listed values that have a bit, and nothing else.
pub proof fn lemma_init_flags_roundtrip(v: Seq<InitFlags>, x: InitFlags)
    ensures
        flags_in(init_table(), num_of(init_table(), v)).contains(x) <==> v.contains(x),
{
    let t = init_table();
    lemma_init_table_well_formed();
    lemma_flags_in_num_of(t, v, x);
    match x {
        InitFlags::Latency => {
            assert(t[0].1 == x);
        },
        InitFlags::SixteenBit => {
            assert(t[1].1 == x);
        },
        InitFlags::Mono => {
            assert(t[2].1 == x);
        },
        InitFlags::Stereo => {
            assert(t[3].1 == x);
        },
        InitFlags::NoSpeaker => {
            assert(t[4].1 == x);
        },
        InitFlags::Frequency => {
            assert(t[5].1 == x);
        },
        InitFlags::DirectSound => {
            assert(t[6].1 == x);
        },
        InitFlags::AudioTrack => {
            assert(t[7].1 == x);
        },
        InitFlags::DMix => {
            assert(t[8].1 == x);
        },
    }
}

/// The BASS value of `BASS_DEVICE_ENABLED`.
pub const BASS_DEVICE_ENABLED: u32 = 0x1;

/// The BASS value of `BASS_DEVICE_DEFAULT`.
pub const BASS_DEVICE_DEFAULT: u32 = 0x2;

/// The BASS value of `BASS_DEVICE_INIT`.
pub const BASS_DEVICE_INIT: u32 = 0x4;

/// The BASS value of `BASS_DEVICE_LOOPBACK`.
pub const BASS_DEVICE_LOOPBACK: u32 = 0x8;

/// Flags of an output device.
#[derive(Clone, Copy, PartialEq, Eq, Debug, Structural)]
pub enum DeviceFlags {
    /// The device is enabled.
    Enabled,
    /// The device is the default one.
    Default,
    /// The device is the default communication device (no bit is read for it).
    DefaultCom,
    /// The device is initialized.
    Init,
    /// The device is a loopback device.
    Loopback,
}

/// The (bit, value) table of `DeviceFlags`, in the order BASS flags are read.
pub open spec fn device_table() -> Seq<(u32, DeviceFlags)> {
    seq![(BASS_DEVICE_ENABLED, DeviceFlags::Enabled), (BASS_DEVICE_DEFAULT, DeviceFlags::Default), (BASS_DEVICE_INIT, DeviceFlags::Init), (BASS_DEVICE_LOOPBACK, DeviceFlags::Loopback)]
}

fn device_table_vec() -> (t: Vec<(u32, DeviceFlags)>)
    ensures
        t@ == device_table(),
{
    let mut t: Vec<(u32, DeviceFlags)> = Vec::new();
    t.push((BASS_DEVICE_ENABLED, DeviceFlags::Enabled));
    t.push((BASS_DEVICE_DEFAULT, DeviceFlags::Default));
    t.push((BASS_DEVICE_INIT, DeviceFlags::Init));
    t.push((BASS_DEVICE_LOOPBACK, DeviceFlags::Loopback));
    assert(t@ =~= device_table());
    t
}

fn contains_device(v: &Vec<DeviceFlags>, x: DeviceFlags) -> (b: bool)
    ensures
        b == v@.contains(x),
{
    let mut i: usize = 0;
    while i < v.len()
        invariant
            i <= v.len(),
            forall|j: int| 0 <= j < i ==> v@[j] != x,
        decreases v.len() - i,
    {
        if v[i] == x {
            return true;
        }
        i = i + 1;
    }
    false
}

impl ToBassFlags<DeviceFlags> for u32 {
    open spec fn flags_spec(&self) -> Seq<DeviceFlags> {
        flags_in(device_table(), *self)
    }

    fn to_flags(&self) -> (list: Vec<DeviceFlags>) {
        let table = device_table_vec();
        let mut list: Vec<DeviceFlags> = Vec::new();
        let mut k: usize = 0;
        while k < table.len()
            invariant
                k <= table.len(),
                table@ == device_table(),
                list@ == flags_in(table@.take(k as int), *self),
            decreases table.len() - k,
        {
            let (bit, value) = table[k];
            assert(table@.take(k + 1).drop_last() =~= table@.take(k as int));
            if (*self & bit) > 0 {
                list.push(value);
            }
            k = k + 1;
        }
        assert(table@.take(table.len() as int) =~= table@);
        list
    }
}

impl AsBassFlags for Vec<DeviceFlags> {
    fn to_num(self) -> (total: u32)
        ensures
            total == num_of(device_table(), self@),
    {
        let table = device_table_vec();
        let mut total: u32 = 0;
        let mut k: usize = 0;
        while k < table.len()
            invariant
                k <= table.len(),
                table@ == device_table(),
                total == num_of(table@.take(k as int), self@),
            decreases table.len() - k,
        {
            let (flag, value) = table[k];
            assert(table@.take(k + 1).drop_last() =~= table@.take(k as int));
            if contains_device(&self, value) {
                total = total | flag;
            }
            k = k + 1;
        }
        assert(table@.take(table.len() as int) =~= table@);
        total
    }
}

/// The `DeviceFlags` table is well formed: single bits, no bit or value twice.
pub proof fn lemma_device_table_well_formed()
    ensures
        well_formed_table(device_table()),
{
    let t = device_table();
    assert(t[0] == (BASS_DEVICE_ENABLED, DeviceFlags::Enabled));
    assert(t[1] == (BASS_DEVICE_DEFAULT, DeviceFlags::Default));
    assert(t[2] == (BASS_DEVICE_INIT, DeviceFlags::Init));
    assert(t[3] == (BASS_DEVICE_LOOPBACK, DeviceFlags::Loopback));
    assert(single_bit(BASS_DEVICE_ENABLED) && single_bit(BASS_DEVICE_DEFAULT) && single_bit(BASS_DEVICE_INIT) && single_bit(BASS_DEVICE_LOOPBACK)) by (bit_vector);
    assert(BASS_DEVICE_ENABLED & BASS_DEVICE_DEFAULT == 0 && BASS_DEVICE_ENABLED & BASS_DEVICE_INIT == 0 && BASS_DEVICE_ENABLED & BASS_DEVICE_LOOPBACK == 0 && BASS_DEVICE_DEFAULT & BASS_DEVICE_ENABLED == 0 && BASS_DEVICE_DEFAULT & BASS_DEVICE_INIT == 0 && BASS_DEVICE_DEFAULT & BASS_DEVICE_LOOPBACK == 0 && BASS_DEVICE_INIT & BASS_DEVICE_ENABLED == 0 && BASS_DEVICE_INIT & BASS_DEVICE_DEFAULT == 0 && BASS_DEVICE_INIT & BASS_DEVICE_LOOPBACK == 0 && BASS_DEVICE_LOOPBACK & BASS_DEVICE_ENABLED == 0 && BASS_DEVICE_LOOPBACK & BASS_DEVICE_DEFAULT == 0 && BASS_DEVICE_LOOPBACK & BASS_DEVICE_INIT == 0) by (bit_vector);
    assert forall|i: int| 0 <= i < t.len() implies #[trigger] single_bit(t[i].0) by {
        assert(i == 0 || i == 1 || i == 2 || i == 3);
    }
    assert forall|i: int, j: int|
        0 <= i < t.len() && 0 <= j < t.len() && i != j implies (#[trigger] t[i].0
        & #[trigger] t[j].0) == 0 by {
        assert(i == 0 || i == 1 || i == 2 || i == 3);
        assert(j == 0 || j == 1 || j == 2 || j == 3);
    }
    assert forall|i: int, j: int|
        0 <= i < t.len() && 0 <= j < t.len() && i != j implies #[trigger] t[i].1
        != #[trigger] t[j].1 by {
        assert(i == 0 || i == 1 || i == 2 || i == 3);
        assert(j == 0 || j == 1 || j == 2 || j == 3);
    }
}

/// Reading the flags of a mask and turning them back into a mask keeps
/// exactly the bits of `n` that `DeviceFlags` knows of.
pub proof fn lemma_device_mask_roundtrip(n: u32)
    ensures
        num_of(device_table(), flags_in(device_table(), n)) == n & mask_of(device_table()),
{
    lemma_device_table_well_formed();
    lemma_num_of_flags_in(device_table(), n);
}

/// Turning a list of values into a mask and reading the flags back gives
/// the listed values that have a bit (values without a bit are lost).
pub proof fn lemma_device_flags_roundtrip(v: Seq<DeviceFlags>, x: DeviceFlags)
    ensures
        flags_in(device_table(), num_of(device_table(), v)).contains(x) <==> (v.contains(x) && (x == DeviceFlags::Enabled || x == DeviceFlags::Default || x == DeviceFlags::Init || x == DeviceFlags::Loopback)),
{
    let t = device_table();
    lemma_device_table_well_formed();
    lemma_flags_in_num_of(t, v, x);
    match x {
        DeviceFlags::Enabled => {
            assert(t[0].1 == x);
        },
        DeviceFlags::Default => {
            assert(t[1].1 == x);
        },
        DeviceFlags::DefaultCom => {
            assert forall|i: int| 0 <= i < t.len() implies #[trigger] t[i].1 != x by {
                assert(i == 0 || i == 1 || i == 2 || i == 3);
            }
        },
        DeviceFlags::Init => {
            assert(t[2].1 == x);
        },
        DeviceFlags::Loopback => {
            assert(t[3].1 == x);
        },
    }
}

/// The BASS value of `BASS_DEVICE_TYPE_DIGITAL`.
pub const BASS_DEVICE_TYPE_DIGITAL: u32 = 0x8000000;

/// The kind of an output device.
#[derive(Clone, Copy, PartialEq, Eq, Debug, Structural)]
pub enum DeviceType {
    /// A digital output.
    Digital,
    /// A DisplayPort output.
    DisplayPort,
    /// A handset.
    Handset,
    /// An HDMI output.
    Hdmi,
    /// Headphones.
    Headphones,
    /// A headset.
    Headset,
    /// A line output.
    Line,
    /// A microphone.
    Microphone,
    /// A network device.
    Network,
    /// An S/PDIF output.
    Spdif,
    /// Speakers.
    Speakers,
}

/// The (bit, value) table of `DeviceType`, in the order BASS flags are read.
pub open spec fn device_type_table() -> Seq<(u32, DeviceType)> {
    seq![(BASS_DEVICE_TYPE_DIGITAL, DeviceType::Digital)]
}

fn device_type_table_vec() -> (t: Vec<(u32, DeviceType)>)
    ensures
        t@ == device_type_table(),
{
    let mut t: Vec<(u32, DeviceType)> = Vec::new();
    t.push((BASS_DEVICE_TYPE_DIGITAL, DeviceType::Digital));
    assert(t@ =~= device_type_table());
    t
}

fn contains_device_type(v: &Vec<DeviceType>, x: DeviceType) -> (b: bool)
    ensures
        b == v@.contains(x),
{
    let mut i: usize = 0;
    while i < v.len()
        invariant
            i <= v.len(),
            forall|j: int| 0 <= j < i ==> v@[j] != x,
        decreases v.len() - i,
    {
        if v[i] == x {
            return true;
        }
        i = i + 1;
    }
    false
}

impl ToBassFlags<DeviceType> for u32 {
    open spec fn flags_spec(&self) -> Seq<DeviceType> {
        flags_in(device_type_table(), *self)
    }

    fn to_flags(&self) -> (list: Vec<DeviceType>) {
        let table = device_type_table_vec();
        let mut list: Vec<DeviceType> = Vec::new();
        let mut k: usize = 0;
        while k < table.len()
            invariant
                k <= table.len(),
                table@ == device_type_table(),
                list@ == flags_in(table@.take(k as int), *self),
            decreases table.len() - k,
        {
            let (bit, value) = table[k];
            assert(table@.take(k + 1).drop_last() =~= table@.take(k as int));
            if (*self & bit) > 0 {
                list.push(value);
            }
            k = k + 1;
        }
        assert(table@.take(table.len() as int) =~= table@);
        list
    }
}

impl AsBassFlags for Vec<DeviceType> {
    fn to_num(self) -> (total: u32)
        ensures
            total == num_of(device_type_table(), self@),
    {
        let table = device_type_table_vec();
        let mut total: u32 = 0;
        let mut k: usize = 0;
        while k < table.len()
            invariant
                k <= table.len(),
                table@ == device_type_table(),
                total == num_of(table@.take(k as int), self@),
            decreases table.len() - k,
        {
            let (flag, value) = table[k];
            assert(table@.take(k + 1).drop_last() =~= table@.take(k as int));
            if contains_device_type(&self, value) {
                total = total | flag;
            }
            k = k + 1;
        }
        assert(table@.take(table.len() as int) =~= table@);
        total
    }
}

/// The `DeviceType` table is well formed: single bits, no bit or value twice.
pub proof fn lemma_device_type_table_well_formed()
    ensures
        well_formed_table(device_type_table()),
{
    let t = device_type_table();
    assert(t[0] == (BASS_DEVICE_TYPE_DIGITAL, DeviceType::Digital));
    assert(single_bit(BASS_DEVICE_TYPE_DIGITAL)) by (bit_vector);
    assert forall|i: int| 0 <= i < t.len() implies #[trigger] single_bit(t[i].0) by {
        assert(i == 0);
    }
    assert forall|i: int, j: int|
        0 <= i < t.len() && 0 <= j < t.len() && i != j implies (#[trigger] t[i].0
        & #[trigger] t[j].0) == 0 by {
        assert(i == 0);
        assert(j == 0);
    }
    assert forall|i: int, j: int|
        0 <= i < t.len() && 0 <= j < t.len() && i != j implies #[trigger] t[i].1
        != #[trigger] t[j].1 by {
        assert(i == 0);
        assert(j == 0);
    }
}

/// Reading the flags of a mask and turning them back into a mask keeps
/// exactly the bits of `n` that `DeviceType` knows of.
pub proof fn lemma_device_type_mask_roundtrip(n: u32)
    ensures
        num_of(device_type_table(), flags_in(device_type_table(), n)) == n & mask_of(device_type_table()),
{
    lemma_device_type_table_well_formed();
    lemma_num_of_flags_in(device_type_table(), n);
}

/// Turning a list of values into a mask and reading the flags back gives
/// the listed values that have a bit (values without a bit are lost).
pub proof fn lemma_device_type_flags_roundtrip(v: Seq<DeviceType>, x: DeviceType)
    ensures
        flags_in(device_type_table(), num_of(device_type_table(), v)).contains(x) <==> (v.contains(x) && (x == DeviceType::Digital)),
{
    let t = device_type_table();
    lemma_device_type_table_well_formed();
    lemma_flags_in_num_of(t, v, x);
    match x {
        DeviceType::Digital => {
            assert(t[0].1 == x);
        },
        DeviceType::DisplayPort => {
            assert forall|i: int| 0 <= i < t.len() implies #[trigger] t[i].1 != x by {
                assert(i == 0);
            }
        },
        DeviceType::Handset => {
            assert forall|i: int| 0 <= i < t.len() implies #[trigger] t[i].1 != x by {
                assert(i == 0);
            }
        },
        DeviceType::Hdmi => {
            assert forall|i: int| 0 <= i < t.len() implies #[trigger] t[i].1 != x by {
                assert(i == 0);
            }
        },
        DeviceType::Headphones => {
            assert forall|i: int| 0 <= i < t.len() implies #[trigger] t[i].1 != x by {
                assert(i == 0);
            }
        },
        DeviceType::Headset => {
            assert forall|i: int| 0 <= i < t.len() implies #[trigger] t[i].1 != x by {
                assert(i == 0);
            }
        },
        DeviceType::Line => {
            assert forall|i: int| 0 <= i < t.len() implies #[trigger] t[i].1 != x by {
                assert(i == 0);
            }
        },
        DeviceType::Microphone => {
            assert forall|i: int| 0 <= i < t.len() implies #[trigger] t[i].1 != x by {
                assert(i == 0);
            }
        },
        DeviceType::Network => {
            assert forall|i: int| 0 <= i < t.len() implies #[trigger] t[i].1 != x by {
                assert(i == 0);
            }
        },
        DeviceType::Spdif => {
            assert forall|i: int| 0 <= i < t.len() implies #[trigger] t[i].1 != x by {
                assert(i == 0);
            }
        },
        DeviceType::Speakers => {
            assert forall|i: int| 0 <= i < t.len() implies #[trigger] t[i].1 != x by {
                assert(i == 0);
            }
        },
    }
}

} // verus!
