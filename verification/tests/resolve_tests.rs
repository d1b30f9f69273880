use patina_performance::error::EfiError;
use patina_performance::known::{str_eq, KnownPerfId, KnownPerfToken, PerfAttribute};
use patina_performance::resolve::{adjust_nibble, resolve_perf_id};

const ALL_IDS: [(KnownPerfId, u16); 21] = [
    (KnownPerfId::PerfEvent, 0x00),
    (KnownPerfId::ModuleStart, 0x01),
    (KnownPerfId::ModuleEnd, 0x02),
    (KnownPerfId::ModuleLoadImageStart, 0x03),
    (KnownPerfId::ModuleLoadImageEnd, 0x04),
    (KnownPerfId::ModuleDbStart, 0x05),
    (KnownPerfId::ModuleDbEnd, 0x06),
    (KnownPerfId::ModuleDbSupportStart, 0x07),
    (KnownPerfId::ModuleDbSupportEnd, 0x08),
    (KnownPerfId::ModuleDbStopStart, 0x09),
    (KnownPerfId::ModuleDbStopEnd, 0x0A),
    (KnownPerfId::PerfEventSignalStart, 0x10),
    (KnownPerfId::PerfEventSignalEnd, 0x11),
    (KnownPerfId::PerfCallbackStart, 0x20),
    (KnownPerfId::PerfCallbackEnd, 0x21),
    (KnownPerfId::PerfFunctionStart, 0x30),
    (KnownPerfId::PerfFunctionEnd, 0x31),
    (KnownPerfId::PerfInModuleStart, 0x40),
    (KnownPerfId::PerfInModuleEnd, 0x41),
    (KnownPerfId::PerfCrossModuleStart, 0x50),
    (KnownPerfId::PerfCrossModuleEnd, 0x51),
];

const ALL_TOKENS: [(KnownPerfToken, &str); 10] = [
    (KnownPerfToken::SEC, "SEC"),
    (KnownPerfToken::DXE, "DXE"),
    (KnownPerfToken::PEI, "PEI"),
    (KnownPerfToken::BDS, "BDS"),
    (KnownPerfToken::DriverBindingStart, "DB:Start:"),
    (KnownPerfToken::DriverBindingSupport, "DB:Support:"),
    (KnownPerfToken::DriverBindingStop, "DB:Stop:"),
    (KnownPerfToken::LoadImage, "LoadImage:"),
    (KnownPerfToken::StartImage, "StartImage:"),
    (KnownPerfToken::PEIM, "PEIM"),
];

#[test]
fn test_known_ids() {
    for (id, value) in ALL_IDS {
        assert_eq!(id.as_u16(), value);
        assert_eq!(KnownPerfId::try_from(value), Ok(id));
    }
    let mut known = 0;
    for value in 0..=u16::MAX {
        match KnownPerfId::try_from(value) {
            Ok(id) => {
                assert_eq!(id.as_u16(), value);
                known += 1;
            }
            Err(error) => assert_eq!(error, EfiError::InvalidParameter),
        }
    }
    assert_eq!(known, 21);
    assert_eq!(KnownPerfId::try_from(0x0B), Err(EfiError::InvalidParameter));
    assert_eq!(KnownPerfId::try_from(0x12), Err(EfiError::InvalidParameter));
    assert_eq!(KnownPerfId::try_from(0x52), Err(EfiError::InvalidParameter));
}

#[test]
fn test_known_tokens() {
    for (token, text) in ALL_TOKENS {
        assert_eq!(token.as_str(), text);
        assert_eq!(KnownPerfToken::try_from(text), Ok(token));
    }
    for text in ["", "sec", "SEC ", "DB:Start", "DB:Start::", "StartImage", "TestToken", "PEIMS", "D"] {
        assert_eq!(KnownPerfToken::try_from(text), Err(EfiError::InvalidParameter));
    }
}

#[test]
fn test_token_ids() {
    assert_eq!(KnownPerfToken::StartImage.known_ids(), (KnownPerfId::ModuleStart, KnownPerfId::ModuleEnd));
    assert_eq!(
        KnownPerfToken::LoadImage.known_ids(),
        (KnownPerfId::ModuleLoadImageStart, KnownPerfId::ModuleLoadImageEnd)
    );
    assert_eq!(KnownPerfToken::DriverBindingStart.known_ids(), (KnownPerfId::ModuleDbStart, KnownPerfId::ModuleDbEnd));
    assert_eq!(
        KnownPerfToken::DriverBindingSupport.known_ids(),
        (KnownPerfId::ModuleDbSupportStart, KnownPerfId::ModuleDbSupportEnd)
    );
    assert_eq!(
        KnownPerfToken::DriverBindingStop.known_ids(),
        (KnownPerfId::ModuleDbStopStart, KnownPerfId::ModuleDbStopEnd)
    );
    for token in [KnownPerfToken::SEC, KnownPerfToken::DXE, KnownPerfToken::PEI, KnownPerfToken::BDS] {
        assert_eq!(token.known_ids(), (KnownPerfId::PerfCrossModuleStart, KnownPerfId::PerfCrossModuleEnd));
    }
    assert_eq!(KnownPerfToken::PEIM.known_ids(), (KnownPerfId::PerfInModuleStart, KnownPerfId::PerfInModuleEnd));
}

#[test]
fn test_str_eq() {
    assert!(str_eq("", ""));
    assert!(str_eq("abc", "abc"));
    assert!(!str_eq("abc", "abd"));
    assert!(!str_eq("abc", "ab"));
    assert!(!str_eq("ab", "abc"));
    assert!(!str_eq("", "a"));
    assert!(str_eq("é→", "é→"));
    assert!(!str_eq("é", "e"));
}

#[test]
fn test_entry_passes_the_identifier_through() {
    for id in [0u16, 1, 0x0A, 0x0B, 0x10, 0x1234, 0xFFFF] {
        for string in [None, Some("StartImage:"), Some("other")] {
            for present in [false, true] {
                assert_eq!(resolve_perf_id(present, string, id, PerfAttribute::PerfEntry), Ok(id));
            }
        }
    }
}

#[test]
fn test_known_id_with_known_token_is_refused() {
    for (_, id) in ALL_IDS {
        if id == 0 {
            continue;
        }
        for (_, text) in ALL_TOKENS {
            for attribute in [PerfAttribute::PerfStartEntry, PerfAttribute::PerfEndEntry] {
                assert_eq!(resolve_perf_id(true, Some(text), id, attribute), Err(EfiError::InvalidParameter));
                assert_eq!(resolve_perf_id(false, Some(text), id, attribute), Err(EfiError::InvalidParameter));
            }
        }
    }
    // the reserved identifier with its own token
    assert_eq!(
        resolve_perf_id(true, Some("StartImage:"), 0x01, PerfAttribute::PerfStartEntry),
        Err(EfiError::InvalidParameter)
    );
    assert_eq!(
        resolve_perf_id(true, Some("DB:Stop:"), 0x0A, PerfAttribute::PerfEndEntry),
        Err(EfiError::InvalidParameter)
    );
}

#[test]
fn test_nibble_convention() {
    assert_eq!(resolve_perf_id(true, None, 0x1234, PerfAttribute::PerfStartEntry), Ok(0x1230));
    assert_eq!(resolve_perf_id(true, None, 0x1234, PerfAttribute::PerfEndEntry), Ok(0x1234));
    assert_eq!(resolve_perf_id(true, None, 0x1230, PerfAttribute::PerfStartEntry), Ok(0x1230));
    assert_eq!(resolve_perf_id(true, None, 0x1230, PerfAttribute::PerfEndEntry), Ok(0x1231));
    assert_eq!(resolve_perf_id(true, Some("TestToken"), 0xFFFF, PerfAttribute::PerfStartEntry), Ok(0xFFF0));
    assert_eq!(resolve_perf_id(true, Some("TestToken"), 0xFFFF, PerfAttribute::PerfEndEntry), Ok(0xFFFF));
    assert_eq!(resolve_perf_id(false, None, 0xFFF0, PerfAttribute::PerfEndEntry), Ok(0xFFF1));
    assert_eq!(resolve_perf_id(false, None, 0x000F, PerfAttribute::PerfStartEntry), Ok(0x0000));
    assert_eq!(resolve_perf_id(false, None, 0x000B, PerfAttribute::PerfEndEntry), Ok(0x000B));
    assert_eq!(resolve_perf_id(false, None, 0x0060, PerfAttribute::PerfEndEntry), Ok(0x0061));

    assert_eq!(adjust_nibble(0xABCD, PerfAttribute::PerfStartEntry), 0xABC0);
    assert_eq!(adjust_nibble(0xABCD, PerfAttribute::PerfEndEntry), 0xABCD);
    assert_eq!(adjust_nibble(0xABC0, PerfAttribute::PerfEndEntry), 0xABC1);
    assert_eq!(adjust_nibble(0xABCD, PerfAttribute::PerfEntry), 0xABCD);
}

#[test]
fn test_start_and_end_differ_in_the_low_nibble_only() {
    for id in 1..=u16::MAX {
        if KnownPerfId::try_from(id).is_ok() {
            continue;
        }
        let start = resolve_perf_id(true, Some("TestToken"), id, PerfAttribute::PerfStartEntry).unwrap();
        let end = resolve_perf_id(true, Some("TestToken"), id, PerfAttribute::PerfEndEntry).unwrap();
        assert_eq!(start & 0x000F, 0);
        assert_ne!(end & 0x000F, 0);
        assert_eq!(start & 0xFFF0, end & 0xFFF0);
        assert_eq!(start & 0xFFF0, id & 0xFFF0);
    }
}

#[test]
fn test_exactly_one_classification_passes_through() {
    // a known identifier without a known token
    assert_eq!(resolve_perf_id(true, None, 0x01, PerfAttribute::PerfStartEntry), Ok(0x01));
    assert_eq!(resolve_perf_id(true, Some("TestToken"), 0x02, PerfAttribute::PerfStartEntry), Ok(0x02));
    assert_eq!(resolve_perf_id(true, Some("other"), 0x41, PerfAttribute::PerfStartEntry), Ok(0x41));
    assert_eq!(resolve_perf_id(true, None, 0x10, PerfAttribute::PerfEndEntry), Ok(0x10));
    // a known token with an identifier that is not known
    assert_eq!(resolve_perf_id(true, Some("DB:Start:"), 0x0123, PerfAttribute::PerfStartEntry), Ok(0x0123));
    assert_eq!(resolve_perf_id(true, Some("SEC"), 0x0120, PerfAttribute::PerfEndEntry), Ok(0x0120));
}

#[test]
fn test_zero_identifier_is_derived() {
    let start = PerfAttribute::PerfStartEntry;
    let end = PerfAttribute::PerfEndEntry;
    let table: [(&str, u16, u16); 10] = [
        ("StartImage:", 0x01, 0x02),
        ("LoadImage:", 0x03, 0x04),
        ("DB:Start:", 0x05, 0x06),
        ("DB:Support:", 0x07, 0x08),
        ("DB:Stop:", 0x09, 0x0A),
        ("SEC", 0x50, 0x51),
        ("PEI", 0x50, 0x51),
        ("DXE", 0x50, 0x51),
        ("BDS", 0x50, 0x51),
        ("PEIM", 0x40, 0x41),
    ];
    for (text, first, second) in table {
        for present in [false, true] {
            assert_eq!(resolve_perf_id(present, Some(text), 0, start), Ok(first));
            assert_eq!(resolve_perf_id(present, Some(text), 0, end), Ok(second));
        }
    }
    for present in [false, true] {
        assert_eq!(resolve_perf_id(present, Some("TestToken"), 0, start), Ok(0x40));
        assert_eq!(resolve_perf_id(present, Some("TestToken"), 0, end), Ok(0x41));
        assert_eq!(resolve_perf_id(present, Some(""), 0, start), Ok(0x40));
    }
    assert_eq!(resolve_perf_id(true, None, 0, start), Ok(0x40));
    assert_eq!(resolve_perf_id(true, None, 0, end), Ok(0x41));
    assert_eq!(resolve_perf_id(false, None, 0, start), Err(EfiError::InvalidParameter));
    assert_eq!(resolve_perf_id(false, None, 0, end), Err(EfiError::InvalidParameter));
}

#[test]
fn test_try_from_perf_info() {
    let start = PerfAttribute::PerfStartEntry;
    let end = PerfAttribute::PerfEndEntry;
    let entry = PerfAttribute::PerfEntry;
    assert_eq!(KnownPerfId::try_from_perf_info(true, Some("StartImage:"), start), Ok(KnownPerfId::ModuleStart));
    assert_eq!(KnownPerfId::try_from_perf_info(false, Some("StartImage:"), end), Ok(KnownPerfId::ModuleEnd));
    assert_eq!(KnownPerfId::try_from_perf_info(true, Some("BDS"), end), Ok(KnownPerfId::PerfCrossModuleEnd));
    assert_eq!(KnownPerfId::try_from_perf_info(true, Some("anything"), start), Ok(KnownPerfId::PerfInModuleStart));
    assert_eq!(KnownPerfId::try_from_perf_info(true, None, end), Ok(KnownPerfId::PerfInModuleEnd));
    assert_eq!(KnownPerfId::try_from_perf_info(false, None, start), Err(EfiError::InvalidParameter));
    assert_eq!(KnownPerfId::try_from_perf_info(true, Some("StartImage:"), entry), Err(EfiError::InvalidParameter));
    assert_eq!(KnownPerfId::try_from_perf_info(true, None, entry), Err(EfiError::InvalidParameter));
}
