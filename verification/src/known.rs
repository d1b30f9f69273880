//! The well-known identifiers and tokens of the core measurement points.

use crate::error::EfiError;
use vstd::prelude::*;
use vstd::std_specs::convert::TryFromSpecImpl;
use vstd::string::*;
use vstd::utf8::encode_utf8_decode_utf8;

verus! {

/// Whether a measurement is an event of its own or one half of a start/end pair.
#[derive(Debug, Clone, Copy, PartialEq, Eq, Structural)]
pub enum PerfAttribute {
    /// The measurement starts a start/end pair.
    PerfStartEntry,
    /// The measurement ends a start/end pair.
    PerfEndEntry,
    /// The measurement is a single event.
    PerfEntry,
}

/// The identifiers that are reserved for the measurement points of the core.
#[derive(Debug, Clone, Copy, PartialEq, Eq, Structural)]
pub enum KnownPerfId {
    /// A single event.
    PerfEvent,
    /// Start of the entry point of a module.
    ModuleStart,
    /// End of the entry point of a module.
    ModuleEnd,
    /// Start of the loading of an image.
    ModuleLoadImageStart,
    /// End of the loading of an image.
    ModuleLoadImageEnd,
    /// Start of the start function of a driver binding.
    ModuleDbStart,
    /// End of the start function of a driver binding.
    ModuleDbEnd,
    /// Start of the support function of a driver binding.
    ModuleDbSupportStart,
    /// End of the support function of a driver binding.
    ModuleDbSupportEnd,
    /// Start of the stop function of a driver binding.
    ModuleDbStopStart,
    /// End of the stop function of a driver binding.
    ModuleDbStopEnd,
    /// Start of the signalling of an event.
    PerfEventSignalStart,
    /// End of the signalling of an event.
    PerfEventSignalEnd,
    /// Start of a callback.
    PerfCallbackStart,
    /// End of a callback.
    PerfCallbackEnd,
    /// Start of a function.
    PerfFunctionStart,
    /// End of a function.
    PerfFunctionEnd,
    /// Start of a measurement within one module.
    PerfInModuleStart,
    /// End of a measurement within one module.
    PerfInModuleEnd,
    /// Start of a measurement across modules.
    PerfCrossModuleStart,
    /// End of a measurement across modules.
    PerfCrossModuleEnd,
}

impl KnownPerfId {
    /// The number of the identifier.
    pub open spec fn value(self) -> u16 {
        match self {
            KnownPerfId::PerfEvent => 0x00,
            KnownPerfId::ModuleStart => 0x01,
            KnownPerfId::ModuleEnd => 0x02,
            KnownPerfId::ModuleLoadImageStart => 0x03,
            KnownPerfId::ModuleLoadImageEnd => 0x04,
            KnownPerfId::ModuleDbStart => 0x05,
            KnownPerfId::ModuleDbEnd => 0x06,
            KnownPerfId::ModuleDbSupportStart => 0x07,
            KnownPerfId::ModuleDbSupportEnd => 0x08,
            KnownPerfId::ModuleDbStopStart => 0x09,
            KnownPerfId::ModuleDbStopEnd => 0x0A,
            KnownPerfId::PerfEventSignalStart => 0x10,
            KnownPerfId::PerfEventSignalEnd => 0x11,
            KnownPerfId::PerfCallbackStart => 0x20,
            KnownPerfId::PerfCallbackEnd => 0x21,
            KnownPerfId::PerfFunctionStart => 0x30,
            KnownPerfId::PerfFunctionEnd => 0x31,
            KnownPerfId::PerfInModuleStart => 0x40,
            KnownPerfId::PerfInModuleEnd => 0x41,
            KnownPerfId::PerfCrossModuleStart => 0x50,
            KnownPerfId::PerfCrossModuleEnd => 0x51,
        }
    }

    /// The well-known identifier with the number `value`, if there is one.
    pub open spec fn from_value(value: u16) -> Option<KnownPerfId> {
        if value == 0x00 {
            Some(KnownPerfId::PerfEvent)
        } else if value == 0x01 {
            Some(KnownPerfId::ModuleStart)
        } else if value == 0x02 {
            Some(KnownPerfId::ModuleEnd)
        } else if value == 0x03 {
            Some(KnownPerfId::ModuleLoadImageStart)
        } else if value == 0x04 {
            Some(KnownPerfId::ModuleLoadImageEnd)
        } else if value == 0x05 {
            Some(KnownPerfId::ModuleDbStart)
        } else if value == 0x06 {
            Some(KnownPerfId::ModuleDbEnd)
        } else if value == 0x07 {
            Some(KnownPerfId::ModuleDbSupportStart)
        } else if value == 0x08 {
            Some(KnownPerfId::ModuleDbSupportEnd)
        } else if value == 0x09 {
            Some(KnownPerfId::ModuleDbStopStart)
        } else if value == 0x0A {
            Some(KnownPerfId::ModuleDbStopEnd)
        } else if value == 0x10 {
            Some(KnownPerfId::PerfEventSignalStart)
        } else if value == 0x11 {
            Some(KnownPerfId::PerfEventSignalEnd)
        } else if value == 0x20 {
            Some(KnownPerfId::PerfCallbackStart)
        } else if value == 0x21 {
            Some(KnownPerfId::PerfCallbackEnd)
        } else if value == 0x30 {
            Some(KnownPerfId::PerfFunctionStart)
        } else if value == 0x31 {
            Some(KnownPerfId::PerfFunctionEnd)
        } else if value == 0x40 {
            Some(KnownPerfId::PerfInModuleStart)
        } else if value == 0x41 {
            Some(KnownPerfId::PerfInModuleEnd)
        } else if value == 0x50 {
            Some(KnownPerfId::PerfCrossModuleStart)
        } else if value == 0x51 {
            Some(KnownPerfId::PerfCrossModuleEnd)
        } else {
            None
        }
    }

    /// The identifier that ends the pair which this identifier starts, if it starts one.
    pub open spec fn end_of_pair(self) -> Option<KnownPerfId> {
        match self {
            KnownPerfId::ModuleStart => Some(KnownPerfId::ModuleEnd),
            KnownPerfId::ModuleLoadImageStart => Some(KnownPerfId::ModuleLoadImageEnd),
            KnownPerfId::ModuleDbStart => Some(KnownPerfId::ModuleDbEnd),
            KnownPerfId::ModuleDbSupportStart => Some(KnownPerfId::ModuleDbSupportEnd),
            KnownPerfId::ModuleDbStopStart => Some(KnownPerfId::ModuleDbStopEnd),
            KnownPerfId::PerfEventSignalStart => Some(KnownPerfId::PerfEventSignalEnd),
            KnownPerfId::PerfCallbackStart => Some(KnownPerfId::PerfCallbackEnd),
            KnownPerfId::PerfFunctionStart => Some(KnownPerfId::PerfFunctionEnd),
            KnownPerfId::PerfInModuleStart => Some(KnownPerfId::PerfInModuleEnd),
            KnownPerfId::PerfCrossModuleStart => Some(KnownPerfId::PerfCrossModuleEnd),
            _ => None,
        }
    }

    /// Returns the number of the identifier.
    pub fn as_u16(&self) -> (value: u16)
        ensures
            value == self.value(),
    {
        match self {
            KnownPerfId::PerfEvent => 0x00,
            KnownPerfId::ModuleStart => 0x01,
            KnownPerfId::ModuleEnd => 0x02,
            KnownPerfId::ModuleLoadImageStart => 0x03,
            KnownPerfId::ModuleLoadImageEnd => 0x04,
            KnownPerfId::ModuleDbStart => 0x05,
            KnownPerfId::ModuleDbEnd => 0x06,
            KnownPerfId::ModuleDbSupportStart => 0x07,
            KnownPerfId::ModuleDbSupportEnd => 0x08,
            KnownPerfId::ModuleDbStopStart => 0x09,
            KnownPerfId::ModuleDbStopEnd => 0x0A,
            KnownPerfId::PerfEventSignalStart => 0x10,
            KnownPerfId::PerfEventSignalEnd => 0x11,
            KnownPerfId::PerfCallbackStart => 0x20,
            KnownPerfId::PerfCallbackEnd => 0x21,
            KnownPerfId::PerfFunctionStart => 0x30,
            KnownPerfId::PerfFunctionEnd => 0x31,
            KnownPerfId::PerfInModuleStart => 0x40,
            KnownPerfId::PerfInModuleEnd => 0x41,
            KnownPerfId::PerfCrossModuleStart => 0x50,
            KnownPerfId::PerfCrossModuleEnd => 0x51,
        }
    }
}

impl TryFrom<u16> for KnownPerfId {
    type Error = EfiError;

    fn try_from(value: u16) -> (result: Result<Self, Self::Error>) {
        let id = match value {
            0x00 => KnownPerfId::PerfEvent,
            0x01 => KnownPerfId::ModuleStart,
            0x02 => KnownPerfId::ModuleEnd,
            0x03 => KnownPerfId::ModuleLoadImageStart,
            0x04 => KnownPerfId::ModuleLoadImageEnd,
            0x05 => KnownPerfId::ModuleDbStart,
            0x06 => KnownPerfId::ModuleDbEnd,
            0x07 => KnownPerfId::ModuleDbSupportStart,
            0x08 => KnownPerfId::ModuleDbSupportEnd,
            0x09 => KnownPerfId::ModuleDbStopStart,
            0x0A => KnownPerfId::ModuleDbStopEnd,
            0x10 => KnownPerfId::PerfEventSignalStart,
            0x11 => KnownPerfId::PerfEventSignalEnd,
            0x20 => KnownPerfId::PerfCallbackStart,
            0x21 => KnownPerfId::PerfCallbackEnd,
            0x30 => KnownPerfId::PerfFunctionStart,
            0x31 => KnownPerfId::PerfFunctionEnd,
            0x40 => KnownPerfId::PerfInModuleStart,
            0x41 => KnownPerfId::PerfInModuleEnd,
            0x50 => KnownPerfId::PerfCrossModuleStart,
            0x51 => KnownPerfId::PerfCrossModuleEnd,
            _ => { return Err(EfiError::InvalidParameter); },
        };
        Ok(id)
    }
}

impl TryFromSpecImpl<u16> for KnownPerfId {
    open spec fn obeys_try_from_spec() -> bool {
        true
    }

    open spec fn try_from_spec(value: u16) -> Result<Self, Self::Error> {
        match KnownPerfId::from_value(value) {
            Some(id) => Ok(id),
            None => Err(EfiError::InvalidParameter),
        }
    }
}

/// Whether `value` is the number of a well-known identifier.
pub open spec fn is_known_id(value: u16) -> bool {
    KnownPerfId::from_value(value) is Some
}

/// Every well-known identifier is found again from its number, and only well-known
/// identifiers are found.
pub proof fn lemma_known_id_round_trip(id: KnownPerfId, value: u16)
    ensures
        KnownPerfId::from_value(id.value()) == Some(id),
        KnownPerfId::from_value(value) matches Some(found) ==> found.value() == value,
{
}

/// In every well-known pair the end identifier is the start identifier plus one: the two
/// agree in all bits above the low nibble, and the low nibble of the end identifier is not
/// zero.
pub proof fn lemma_known_pairs(start: KnownPerfId)
    requires
        start.end_of_pair() is Some,
    ensures
        start.end_of_pair().unwrap().value() == start.value() + 1,
        start.end_of_pair().unwrap().value() >> 4 == start.value() >> 4,
        start.end_of_pair().unwrap().value() & 0xF != 0,
        start.value() >= 0x10 ==> start.value() & 0xF == 0,
{
    let s = start.value();
    let e = start.end_of_pair().unwrap().value();
    assert(e == s + 1);
    assert(s <= 0x51);
    assert((s == 1 || s == 3 || s == 5 || s == 7 || s == 9 || s == 0x10 || s == 0x20 || s == 0x30
        || s == 0x40 || s == 0x50) ==> (((s + 1) as u16) >> 4 == s >> 4 && ((s + 1) as u16) & 0xF
        != 0 && (s >= 0x10 ==> s & 0xF == 0))) by (bit_vector);
}

/// The strings that are reserved for the measurement points of the core.
#[derive(Debug, Clone, Copy, PartialEq, Eq, Structural)]
pub enum KnownPerfToken {
    /// The SEC phase.
    SEC,
    /// The DXE phase.
    DXE,
    /// The PEI phase.
    PEI,
    /// The BDS phase.
    BDS,
    /// The start function of a driver binding.
    DriverBindingStart,
    /// The support function of a driver binding.
    DriverBindingSupport,
    /// The stop function of a driver binding.
    DriverBindingStop,
    /// The loading of an image.
    LoadImage,
    /// The entry point of an image.
    StartImage,
    /// A PEI module.
    PEIM,
}

impl KnownPerfToken {
    /// The text of the token.
    pub open spec fn text(self) -> Seq<char> {
        match self {
            KnownPerfToken::SEC => "SEC"@,
            KnownPerfToken::DXE => "DXE"@,
            KnownPerfToken::PEI => "PEI"@,
            KnownPerfToken::BDS => "BDS"@,
            KnownPerfToken::DriverBindingStart => "DB:Start:"@,
            KnownPerfToken::DriverBindingSupport => "DB:Support:"@,
            KnownPerfToken::DriverBindingStop => "DB:Stop:"@,
            KnownPerfToken::LoadImage => "LoadImage:"@,
            KnownPerfToken::StartImage => "StartImage:"@,
            KnownPerfToken::PEIM => "PEIM"@,
        }
    }

    /// The token with the text `text`, if there is one.
    pub open spec fn from_text(text: Seq<char>) -> Option<KnownPerfToken> {
        if text == "SEC"@ {
            Some(KnownPerfToken::SEC)
        } else if text == "DXE"@ {
            Some(KnownPerfToken::DXE)
        } else if text == "PEI"@ {
            Some(KnownPerfToken::PEI)
        } else if text == "BDS"@ {
            Some(KnownPerfToken::BDS)
        } else if text == "DB:Start:"@ {
            Some(KnownPerfToken::DriverBindingStart)
        } else if text == "DB:Support:"@ {
            Some(KnownPerfToken::DriverBindingSupport)
        } else if text == "DB:Stop:"@ {
            Some(KnownPerfToken::DriverBindingStop)
        } else if text == "LoadImage:"@ {
            Some(KnownPerfToken::LoadImage)
        } else if text == "StartImage:"@ {
            Some(KnownPerfToken::StartImage)
        } else if text == "PEIM"@ {
            Some(KnownPerfToken::PEIM)
        } else {
            None
        }
    }

    /// The well-known identifiers that the token stands for: the identifier of a start
    /// measurement and the identifier of the end measurement that belongs to it.
    pub open spec fn pair(self) -> (KnownPerfId, KnownPerfId) {
        match self {
            KnownPerfToken::StartImage => (KnownPerfId::ModuleStart, KnownPerfId::ModuleEnd),
            KnownPerfToken::LoadImage => (
                KnownPerfId::ModuleLoadImageStart,
                KnownPerfId::ModuleLoadImageEnd,
            ),
            KnownPerfToken::DriverBindingStart => (KnownPerfId::ModuleDbStart, KnownPerfId::ModuleDbEnd),
            KnownPerfToken::DriverBindingSupport => (
                KnownPerfId::ModuleDbSupportStart,
                KnownPerfId::ModuleDbSupportEnd,
            ),
            KnownPerfToken::DriverBindingStop => (
                KnownPerfId::ModuleDbStopStart,
                KnownPerfId::ModuleDbStopEnd,
            ),
            KnownPerfToken::SEC | KnownPerfToken::DXE | KnownPerfToken::PEI | KnownPerfToken::BDS => (
                KnownPerfId::PerfCrossModuleStart,
                KnownPerfId::PerfCrossModuleEnd,
            ),
            KnownPerfToken::PEIM => (KnownPerfId::PerfInModuleStart, KnownPerfId::PerfInModuleEnd),
        }
    }

    /// Returns the text of the token.
    pub fn as_str(&self) -> (text: &'static str)
        ensures
            text@ == self.text(),
    {
        match self {
            KnownPerfToken::SEC => "SEC",
            KnownPerfToken::DXE => "DXE",
            KnownPerfToken::PEI => "PEI",
            KnownPerfToken::BDS => "BDS",
            KnownPerfToken::DriverBindingStart => "DB:Start:",
            KnownPerfToken::DriverBindingSupport => "DB:Support:",
            KnownPerfToken::DriverBindingStop => "DB:Stop:",
            KnownPerfToken::LoadImage => "LoadImage:",
            KnownPerfToken::StartImage => "StartImage:",
            KnownPerfToken::PEIM => "PEIM",
        }
    }

    /// Returns the well-known identifiers that the token stands for.
    pub fn known_ids(&self) -> (ids: (KnownPerfId, KnownPerfId))
        ensures
            ids == self.pair(),
    {
        match self {
            KnownPerfToken::StartImage => (KnownPerfId::ModuleStart, KnownPerfId::ModuleEnd),
            KnownPerfToken::LoadImage => (
                KnownPerfId::ModuleLoadImageStart,
                KnownPerfId::ModuleLoadImageEnd,
            ),
            KnownPerfToken::DriverBindingStart => (KnownPerfId::ModuleDbStart, KnownPerfId::ModuleDbEnd),
            KnownPerfToken::DriverBindingSupport => (
                KnownPerfId::ModuleDbSupportStart,
                KnownPerfId::ModuleDbSupportEnd,
            ),
            KnownPerfToken::DriverBindingStop => (
                KnownPerfId::ModuleDbStopStart,
                KnownPerfId::ModuleDbStopEnd,
            ),
            KnownPerfToken::SEC | KnownPerfToken::DXE | KnownPerfToken::PEI | KnownPerfToken::BDS => (
                KnownPerfId::PerfCrossModuleStart,
                KnownPerfId::PerfCrossModuleEnd,
            ),
            KnownPerfToken::PEIM => (KnownPerfId::PerfInModuleStart, KnownPerfId::PerfInModuleEnd),
        }
    }
}

/// Tells whether two strings hold the same text.
pub fn str_eq(a: &str, b: &str) -> (equal: bool)
    ensures
        equal == (a@ == b@),
{
    let x = a.as_bytes();
    let y = b.as_bytes();
    proof {
        encode_utf8_decode_utf8(a@);
        encode_utf8_decode_utf8(b@);
    }
    if x.len() != y.len() {
        return false;
    }
    let mut i: usize = 0;
    while i < x.len()
        invariant
            i <= x@.len(),
            x@.len() == y@.len(),
            x@ == a.spec_bytes(),
            y@ == b.spec_bytes(),
            forall|k: int| 0 <= k < i ==> x@[k] == y@[k],
        decreases x@.len() - i,
    {
        if x[i] != y[i] {
            assert(a@ != b@) by {
                if a@ == b@ {
                    assert(x@[i as int] == y@[i as int]);
                }
            }
            return false;
        }
        i += 1;
    }
    assert(x@ =~= y@);
    true
}

impl<'a> TryFrom<&'a str> for KnownPerfToken {
    type Error = EfiError;

    fn try_from(value: &'a str) -> (result: Result<Self, Self::Error>) {
        if str_eq(value, "SEC") {
            Ok(KnownPerfToken::SEC)
        } else if str_eq(value, "DXE") {
            Ok(KnownPerfToken::DXE)
        } else if str_eq(value, "PEI") {
            Ok(KnownPerfToken::PEI)
        } else if str_eq(value, "BDS") {
            Ok(KnownPerfToken::BDS)
        } else if str_eq(value, "DB:Start:") {
            Ok(KnownPerfToken::DriverBindingStart)
        } else if str_eq(value, "DB:Support:") {
            Ok(KnownPerfToken::DriverBindingSupport)
        } else if str_eq(value, "DB:Stop:") {
            Ok(KnownPerfToken::DriverBindingStop)
        } else if str_eq(value, "LoadImage:") {
            Ok(KnownPerfToken::LoadImage)
        } else if str_eq(value, "StartImage:") {
            Ok(KnownPerfToken::StartImage)
        } else if str_eq(value, "PEIM") {
            Ok(KnownPerfToken::PEIM)
        } else {
            Err(EfiError::InvalidParameter)
        }
    }
}

impl<'a> TryFromSpecImpl<&'a str> for KnownPerfToken {
    open spec fn obeys_try_from_spec() -> bool {
        true
    }

    open spec fn try_from_spec(value: &'a str) -> Result<Self, Self::Error> {
        match KnownPerfToken::from_text(value@) {
            Some(token) => Ok(token),
            None => Err(EfiError::InvalidParameter),
        }
    }
}

/// Whether `text` is the text of a well-known token.
pub open spec fn is_known_token(text: Seq<char>) -> bool {
    KnownPerfToken::from_text(text) is Some
}

} // verus!
