use bitbox_bridge::commands::{
    coin_for, coin_of_xpub, parse_script_type, parse_xpub_type, script_type_from_lowered,
    xpub_type_from_lowered, Coin, ScriptType, XpubType,
};
use bitbox_bridge::registry::{BridgeError, SessionRegistry};
use bitbox_bridge::usb_bridge::{
    get_usb_write_data, set_usb_read_data, PlatformUsbBridge, ReadPolicy, ReadStep,
    TransportQueues,
};

type Registry = SessionRegistry<String, String>;

fn paired(id: &str) -> Registry {
    let mut r = Registry::new();
    r.complete_pairing(id.to_string(), "session".to_string());
    r
}

fn valid_psbt_text() -> String {
    let tx = bitcoin::Transaction {
        version: bitcoin::transaction::Version::TWO,
        lock_time: bitcoin::absolute::LockTime::ZERO,
        input: vec![bitcoin::TxIn::default()],
        output: vec![bitcoin::TxOut {
            value: bitcoin::Amount::from_sat(1000),
            script_pubkey: bitcoin::ScriptBuf::new(),
        }],
    };
    bitcoin::psbt::Psbt::from_unsigned_tx(tx).unwrap().to_string()
}

#[test]
fn failed_handshake_gives_no_code() {
    let mut r = Registry::new();
    assert_eq!(r.start_pairing("d".to_string(), None), None);
    assert_eq!(r.begin_confirm(&"d".to_string()).err(), Some(BridgeError::NoPendingPairing));
}

#[test]
fn second_confirm_fails_after_success() {
    let mut r = Registry::new();
    let code = r.start_pairing("d".to_string(), Some(("hs".to_string(), Some("1234".to_string()))));
    assert_eq!(code, Some("1234".to_string()));
    assert_eq!(r.begin_confirm(&"d".to_string()), Ok("hs".to_string()));
    assert_eq!(r.confirm_pairing("d".to_string(), Some("paired".to_string())), Ok(true));
    assert_eq!(r.begin_confirm(&"d".to_string()), Err(BridgeError::NoPendingPairing));
}

#[test]
fn second_confirm_fails_after_failure() {
    let mut r = Registry::new();
    r.start_pairing("d".to_string(), Some(("hs".to_string(), Some("1".to_string()))));
    assert!(r.begin_confirm(&"d".to_string()).is_ok());
    assert_eq!(r.confirm_pairing("d".to_string(), None), Err(BridgeError::EngineFailure));
    assert_eq!(r.begin_confirm(&"d".to_string()), Err(BridgeError::NoPendingPairing));
    assert!(r.get_paired(&"d".to_string()).is_none());
}

#[test]
fn commands_need_a_paired_session_even_while_pairing() {
    let mut r = Registry::new();
    r.start_pairing("d".to_string(), Some(("hs".to_string(), Some("1".to_string()))));
    let id = "d".to_string();
    assert_eq!(r.paired_session(&id).err(), Some(BridgeError::NotPaired));
    assert_eq!(r.get_btc_xpub(&id, "m/84'/0'/0'", "xpub").err().map(|e| e), Some(BridgeError::NotPaired));
    assert_eq!(r.verify_address(&id, "m/84'/0'/0'/0/0", false, &None).err(), Some(BridgeError::NotPaired));
    assert_eq!(r.sign_psbt(&id, &valid_psbt_text(), false).err(), Some(BridgeError::NotPaired));
}

#[test]
fn closed_device_behaves_as_never_paired() {
    let mut r = paired("d");
    let id = "d".to_string();
    assert!(r.paired_session(&id).is_ok());
    r.close(&id);
    r.close(&id);
    let fresh = Registry::new();
    assert_eq!(r.paired_session(&id).err(), fresh.paired_session(&id).err());
    assert_eq!(r.get_btc_xpub(&id, "m/0", "tpub").err(), Some(BridgeError::NotPaired));
}

#[test]
fn repairing_replaces_the_session() {
    let mut r = paired("d");
    r.complete_pairing("d".to_string(), "newer".to_string());
    assert_eq!(r.get_paired(&"d".to_string()), Some(&"newer".to_string()));
}

#[test]
fn xpub_request_for_testnet_key() {
    let r = paired("d");
    let (s, req) = r.get_btc_xpub(&"d".to_string(), "m/84'/1'/0'", "TPUB").ok().unwrap();
    assert_eq!(s, "session");
    assert_eq!(req.xpub_type, XpubType::Tpub);
    assert_eq!(req.coin, Coin::Tbtc);
    assert_eq!(req.keypath.to_vec(), vec![0x80000054, 0x80000001, 0x80000000]);
}

#[test]
fn xpub_request_with_unknown_type_falls_back() {
    let r = paired("d");
    let (_, req) = r.get_btc_xpub(&"d".to_string(), "m/0/1", "zpub").ok().unwrap();
    assert_eq!(req.xpub_type, XpubType::Xpub);
    assert_eq!(req.coin, Coin::Btc);
}

#[test]
fn malformed_keypath_is_invalid_input() {
    let r = paired("d");
    let id = "d".to_string();
    assert_eq!(r.get_btc_xpub(&id, "84'/0'", "xpub").err(), Some(BridgeError::InvalidInput));
    assert_eq!(r.verify_address(&id, "m/abc", true, &None).err(), Some(BridgeError::InvalidInput));
}

#[test]
fn address_request_fields() {
    let r = paired("d");
    let id = "d".to_string();
    let (_, req) = r.verify_address(&id, "m/86'/0'/0'/0/0", true, &Some("P2TR".to_string())).ok().unwrap();
    assert_eq!(req.coin, Coin::Tbtc);
    assert_eq!(req.script_type, ScriptType::P2tr);
    let (_, req) = r.verify_address(&id, "m/84'/0'/0'/0/0", false, &None).ok().unwrap();
    assert_eq!(req.coin, Coin::Btc);
    assert_eq!(req.script_type, ScriptType::P2wpkh);
}

#[test]
fn sign_request_accepts_padded_psbt() {
    let r = paired("d");
    let text = format!("  {}\n", valid_psbt_text());
    let (_, req) = r.sign_psbt(&"d".to_string(), &text, true).ok().unwrap();
    assert_eq!(req.coin, Coin::Tbtc);
    assert_eq!(req.psbt.to_string(), valid_psbt_text());
}

#[test]
fn malformed_psbt_is_invalid_input() {
    let r = paired("d");
    assert_eq!(r.sign_psbt(&"d".to_string(), "not a psbt", false).err(), Some(BridgeError::InvalidInput));
}

#[test]
fn type_names_are_case_insensitive() {
    assert_eq!(parse_xpub_type("TPUB"), XpubType::Tpub);
    assert_eq!(parse_xpub_type("xpub"), XpubType::Xpub);
    assert_eq!(parse_xpub_type("other"), XpubType::Xpub);
    assert_eq!(xpub_type_from_lowered("TPUB"), XpubType::Xpub);
    assert_eq!(parse_script_type(&Some("P2WPKHP2SH".to_string())), ScriptType::P2wpkhP2sh);
    assert_eq!(parse_script_type(&Some("p2wpkh".to_string())), ScriptType::P2wpkh);
    assert_eq!(parse_script_type(&Some("junk".to_string())), ScriptType::P2wpkh);
    assert_eq!(parse_script_type(&None), ScriptType::P2wpkh);
    assert_eq!(script_type_from_lowered("p2tr"), ScriptType::P2tr);
}

#[test]
fn coins_follow_network() {
    assert_eq!(coin_for(true), Coin::Tbtc);
    assert_eq!(coin_for(false), Coin::Btc);
    assert_eq!(coin_of_xpub(XpubType::Tpub), Coin::Tbtc);
    assert_eq!(coin_of_xpub(XpubType::Xpub), Coin::Btc);
}

#[test]
fn error_messages_are_descriptive() {
    assert_eq!(BridgeError::NotPaired.message(), "Device not paired");
    assert_eq!(BridgeError::NoPendingPairing.message(), "No pending pairing for device");
}

#[test]
fn pairing_scenario_with_relay() {
    let mut q = TransportQueues::new();
    let mut r = Registry::new();
    let id = "dev1".to_string();
    let bridge = PlatformUsbBridge::new(id.clone());
    let p = ReadPolicy::standard();
    bridge.write(&mut q, b"handshake");
    assert_eq!(get_usb_write_data(&mut q, id.clone()), Some(b"handshake".to_vec()));
    set_usb_read_data(&mut q, id.clone(), b"response".to_vec());
    let handshake = match bridge.poll_read(&mut q, &p, 0) {
        ReadStep::Data(bytes) => Some((String::from_utf8(bytes).unwrap(), Some("8264 1123".to_string()))),
        _ => None,
    };
    let code = r.start_pairing(id.clone(), handshake);
    assert!(code.map(|c| !c.is_empty()).unwrap_or(false));
    let pending = r.begin_confirm(&id).unwrap();
    assert_eq!(pending, "response");
    bridge.write(&mut q, b"confirm?");
    assert_eq!(get_usb_write_data(&mut q, id.clone()), Some(b"confirm?".to_vec()));
    set_usb_read_data(&mut q, id.clone(), b"ok".to_vec());
    let confirmed = match bridge.poll_read(&mut q, &p, 0) {
        ReadStep::Data(bytes) if bytes == b"ok".to_vec() => Some("paired".to_string()),
        _ => None,
    };
    assert_eq!(r.confirm_pairing(id.clone(), confirmed), Ok(true));
    assert_eq!(r.paired_session(&id).ok(), Some(&"paired".to_string()));
}
