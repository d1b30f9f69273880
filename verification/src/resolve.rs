//! Resolution of the identifier of a measurement.
//!
//! A caller hands in a numeric identifier, an optional string and an attribute. For a
//! single event the identifier is taken as it is. For one half of a start/end pair it is
//! checked against the well-known identifiers and tokens, and then refused, brought into
//! the form of a start or end identifier, derived from the string, or taken as it is.

use crate::error::EfiError;
use crate::known::{is_known_id, is_known_token, KnownPerfId, KnownPerfToken, PerfAttribute};
use vstd::prelude::*;

verus! {

/// The text of an optional string.
pub open spec fn text_of(string: Option<&str>) -> Option<Seq<char>> {
    match string {
        Some(s) => Some(s@),
        None => None,
    }
}

/// Whether `string` is there and is the text of a well-known token.
pub open spec fn has_known_token(string: Option<Seq<char>>) -> bool {
    string is Some && is_known_token(string.unwrap())
}

/// The identifier `id` in the form that the attribute asks for: a start identifier has a
/// low nibble of zero, an end identifier has a low nibble that is not zero, and the bits
/// above the low nibble stay.
pub open spec fn nibble_adjusted(id: u16, attribute: PerfAttribute) -> u16 {
    match attribute {
        PerfAttribute::PerfStartEntry => id & 0xFFF0,
        PerfAttribute::PerfEndEntry => if id & 0x000F == 0 {
            (id + 1) as u16
        } else {
            id
        },
        PerfAttribute::PerfEntry => id,
    }
}

/// The pair of well-known identifiers that stands for a measurement without a numeric
/// identifier: the pair of the token where the string is a well-known token, and the pair
/// of measurements within one module where the string is another one or where there is no
/// string but a caller. Without string and caller there is none.
pub open spec fn derived_pair(caller_present: bool, string: Option<Seq<char>>) -> Option<
    (KnownPerfId, KnownPerfId),
> {
    match string {
        Some(text) => match KnownPerfToken::from_text(text) {
            Some(token) => Some(token.pair()),
            None => Some((KnownPerfId::PerfInModuleStart, KnownPerfId::PerfInModuleEnd)),
        },
        None => if caller_present {
            Some((KnownPerfId::PerfInModuleStart, KnownPerfId::PerfInModuleEnd))
        } else {
            None
        },
    }
}

/// The well-known identifier that stands for a measurement without a numeric identifier,
/// or the error with which the measurement is refused.
pub open spec fn derived_id(
    caller_present: bool,
    string: Option<Seq<char>>,
    attribute: PerfAttribute,
) -> Result<KnownPerfId, EfiError> {
    match (attribute, derived_pair(caller_present, string)) {
        (PerfAttribute::PerfStartEntry, Some(pair)) => Ok(pair.0),
        (PerfAttribute::PerfEndEntry, Some(pair)) => Ok(pair.1),
        _ => Err(EfiError::InvalidParameter),
    }
}

/// The final identifier of a measurement, or the error with which the measurement is
/// refused.
pub open spec fn resolved_id(
    caller_present: bool,
    string: Option<Seq<char>>,
    identifier: u16,
    attribute: PerfAttribute,
) -> Result<u16, EfiError> {
    if attribute == PerfAttribute::PerfEntry {
        Ok(identifier)
    } else if identifier != 0 && is_known_id(identifier) && has_known_token(string) {
        Err(EfiError::InvalidParameter)
    } else if identifier != 0 && !is_known_id(identifier) && !has_known_token(string) {
        Ok(nibble_adjusted(identifier, attribute))
    } else if identifier == 0 {
        match derived_id(caller_present, string, attribute) {
            Ok(known) => Ok(known.value()),
            Err(error) => Err(error),
        }
    } else {
        Ok(identifier)
    }
}

impl KnownPerfId {
    /// Derives the well-known identifier of a measurement that comes without a numeric
    /// identifier from the string and the attribute, and from whether a caller is named.
    pub fn try_from_perf_info(
        caller_present: bool,
        string: Option<&str>,
        attribute: PerfAttribute,
    ) -> (result: Result<KnownPerfId, EfiError>)
        ensures
            result == derived_id(caller_present, text_of(string), attribute),
    {
        let pair = match string {
            Some(text) => match KnownPerfToken::try_from(text) {
                Ok(token) => token.known_ids(),
                Err(_) => (KnownPerfId::PerfInModuleStart, KnownPerfId::PerfInModuleEnd),
            },
            None => {
                if !caller_present {
                    return Err(EfiError::InvalidParameter);
                }
                (KnownPerfId::PerfInModuleStart, KnownPerfId::PerfInModuleEnd)
            },
        };
        match attribute {
            PerfAttribute::PerfStartEntry => Ok(pair.0),
            PerfAttribute::PerfEndEntry => Ok(pair.1),
            PerfAttribute::PerfEntry => Err(EfiError::InvalidParameter),
        }
    }
}

/// Brings `perf_id` into the form of a start or of an end identifier.
pub fn adjust_nibble(perf_id: u16, attribute: PerfAttribute) -> (adjusted: u16)
    ensures
        adjusted == nibble_adjusted(perf_id, attribute),
{
    match attribute {
        PerfAttribute::PerfStartEntry => perf_id & 0xFFF0,
        PerfAttribute::PerfEndEntry => {
            if perf_id & 0x000F == 0 {
                assert(perf_id & 0x000F == 0 ==> perf_id < 0xFFFF) by (bit_vector);
                perf_id + 1
            } else {
                perf_id
            }
        },
        PerfAttribute::PerfEntry => perf_id,
    }
}

/// Resolves the identifier of a measurement. `caller_present` tells whether the measurement
/// names a caller.
pub fn resolve_perf_id(
    caller_present: bool,
    string: Option<&str>,
    identifier: u16,
    attribute: PerfAttribute,
) -> (result: Result<u16, EfiError>)
    ensures
        result == resolved_id(caller_present, text_of(string), identifier, attribute),
{
    if attribute == PerfAttribute::PerfEntry {
        return Ok(identifier);
    }
    let is_known_id = KnownPerfId::try_from(identifier).is_ok();
    let is_known_token = match string {
        Some(text) => KnownPerfToken::try_from(text).is_ok(),
        None => false,
    };
    if identifier != 0 && is_known_id && is_known_token {
        Err(EfiError::InvalidParameter)
    } else if identifier != 0 && !is_known_id && !is_known_token {
        Ok(adjust_nibble(identifier, attribute))
    } else if identifier == 0 {
        match KnownPerfId::try_from_perf_info(caller_present, string, attribute) {
            Ok(known) => Ok(known.as_u16()),
            Err(error) => Err(error),
        }
    } else {
        Ok(identifier)
    }
}

/// A start measurement and an end measurement that share an identifier which is neither
/// zero nor well-known, and whose string is no well-known token, resolve to two
/// identifiers that agree in all bits above the low nibble. The low nibble of the start
/// identifier is zero, that of the end identifier is not.
pub proof fn lemma_start_end_differ_in_low_nibble(
    caller_present: bool,
    string: Option<Seq<char>>,
    identifier: u16,
)
    requires
        identifier != 0,
        !is_known_id(identifier),
        !has_known_token(string),
    ensures
        resolved_id(caller_present, string, identifier, PerfAttribute::PerfStartEntry) is Ok,
        resolved_id(caller_present, string, identifier, PerfAttribute::PerfEndEntry) is Ok,
        ({
            let start = resolved_id(
                caller_present,
                string,
                identifier,
                PerfAttribute::PerfStartEntry,
            )->Ok_0;
            let end = resolved_id(caller_present, string, identifier, PerfAttribute::PerfEndEntry)->Ok_0;
            &&& start >> 4 == end >> 4
            &&& start >> 4 == identifier >> 4
            &&& start & 0x000F == 0
            &&& end & 0x000F != 0
        }),
{
    let id = identifier;
    assert((id & 0xFFF0) >> 4 == id >> 4 && (id & 0xFFF0) & 0x000F == 0) by (bit_vector);
    assert(id & 0x000F == 0 ==> id < 0xFFFF && ((id + 1) as u16) >> 4 == id >> 4 && ((id + 1) as u16)
        & 0x000F != 0) by (bit_vector);
}

/// Whether the token `token` stands for the identifier `identifier`.
pub open spec fn token_matches(token: KnownPerfToken, identifier: u16) -> bool {
    token.pair().0.value() == identifier || token.pair().1.value() == identifier
}

/// One half of a start/end pair that comes with an identifier of the reserved range and
/// with the token that stands for this identifier is refused as an invalid parameter.
pub proof fn lemma_reserved_id_with_token_is_refused(
    caller_present: bool,
    token: KnownPerfToken,
    identifier: u16,
    attribute: PerfAttribute,
)
    requires
        identifier < 0x10,
        token_matches(token, identifier),
        attribute != PerfAttribute::PerfEntry,
    ensures
        resolved_id(caller_present, Some(token.text()), identifier, attribute) == Err::<
            u16,
            EfiError,
        >(EfiError::InvalidParameter),
{
    lemma_token_round_trip(token);
}

/// Every well-known token is found again from its text.
pub proof fn lemma_token_round_trip(token: KnownPerfToken)
    ensures
        KnownPerfToken::from_text(token.text()) == Some(token),
{
    reveal_strlit("SEC");
    reveal_strlit("DXE");
    reveal_strlit("PEI");
    reveal_strlit("BDS");
    reveal_strlit("DB:Start:");
    reveal_strlit("DB:Support:");
    reveal_strlit("DB:Stop:");
    reveal_strlit("LoadImage:");
    reveal_strlit("StartImage:");
    reveal_strlit("PEIM");
    let t = token.text();
    match token {
        KnownPerfToken::SEC => {
            assert(t[0] == 'S');
        },
        KnownPerfToken::DXE => {
            assert(t[0] == 'D' && t.len() == 3);
        },
        KnownPerfToken::PEI => {
            assert(t[0] == 'P' && t.len() == 3);
        },
        KnownPerfToken::BDS => {
            assert(t[0] == 'B');
        },
        KnownPerfToken::DriverBindingStart => {
            assert(t[0] == 'D' && t.len() == 9);
        },
        KnownPerfToken::DriverBindingSupport => {
            assert(t[0] == 'D' && t.len() == 11);
        },
        KnownPerfToken::DriverBindingStop => {
            assert(t[0] == 'D' && t.len() == 8);
        },
        KnownPerfToken::LoadImage => {
            assert(t[0] == 'L');
        },
        KnownPerfToken::StartImage => {
            assert(t[0] == 'S' && t.len() == 11);
        },
        KnownPerfToken::PEIM => {
            assert(t[0] == 'P' && t.len() == 4);
        },
    }
}

} // verus!
