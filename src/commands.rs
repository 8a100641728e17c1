use vstd::prelude::*;
use vstd::string::StrSliceExecFns;

use crate::registry::{lookup, BridgeError, SessionRegistry};

verus! {

#[verifier::external_type_specification]
#[verifier::external_body]
pub struct ExKeypath(bitbox_api::Keypath);

#[verifier::external_type_specification]
#[verifier::external_body]
pub struct ExPsbt(bitcoin::psbt::Psbt);

/// The text `str::to_lowercase` makes of `s`.
pub uninterp spec fn lower_of(s: Seq<char>) -> Seq<char>;

/// The text `str::trim` makes of `s`.
pub uninterp spec fn trim_of(s: Seq<char>) -> Seq<char>;

/// Whether `bitbox_api::Keypath` accepts `s` as a derivation path.
pub uninterp spec fn keypath_accepted(s: Seq<char>) -> bool;

/// Whether `bitcoin::psbt::Psbt` accepts `s` as a base64 transaction.
pub uninterp spec fn psbt_accepted(s: Seq<char>) -> bool;

/// Relies on `str::to_lowercase`: the result depends on the characters alone.
#[verifier::external_body]
fn lowercase(s: &str) -> (r: String)
    ensures
        r@ == lower_of(s@),
{
    s.to_lowercase()
}

/// Relies on `str::trim`: the result depends on the characters alone.
#[verifier::external_body]
fn trimmed(s: &str) -> (r: &str)
    ensures
        r@ == trim_of(s@),
{
    s.trim()
}

/// Relies on `bitbox_api::Keypath::try_from(&str)`: it accepts a path by its
/// characters alone, and only a path that starts with `m/`.
#[verifier::external_body]
fn parse_keypath(s: &str) -> (r: Option<bitbox_api::Keypath>)
    ensures
        r.is_some() == keypath_accepted(s@),
        !(s@.len() >= 2 && s@[0] == 'm' && s@[1] == '/') ==> r.is_none(),
{
    bitbox_api::Keypath::try_from(s).ok()
}

/// Relies on `<bitcoin::psbt::Psbt as FromStr>::from_str`: it accepts a
/// transaction by its characters alone.
#[verifier::external_body]
fn parse_psbt(s: &str) -> (r: Option<bitcoin::psbt::Psbt>)
    ensures
        r.is_some() == psbt_accepted(s@),
{
    <bitcoin::psbt::Psbt as std::str::FromStr>::from_str(s).ok()
}

/// Whether two texts hold the same characters.
fn same_text(a: &str, b: &str) -> (r: bool)
    ensures
        r == (a@ == b@),
{
    let n = a.unicode_len();
    if n != b.unicode_len() {
        return false;
    }
    let mut i: usize = 0;
    while i < n
        invariant
            n == a@.len(),
            n == b@.len(),
            i <= n,
            forall|j: int| 0 <= j < i ==> a@[j] == b@[j],
        decreases n - i,
    {
        if a.get_char(i) != b.get_char(i) {
            return false;
        }
        i = i + 1;
    }
    assert(a@ =~= b@);
    true
}

/// The network a command runs on.
#[derive(Clone, Copy, Debug, PartialEq, Eq, Structural)]
pub enum Coin {
    Btc,
    Tbtc,
}

/// The encoding of an extended public key.
#[derive(Clone, Copy, Debug, PartialEq, Eq, Structural)]
pub enum XpubType {
    Xpub,
    Tpub,
}

/// The script of an address shown on the device.
#[derive(Clone, Copy, Debug, PartialEq, Eq, Structural)]
pub enum ScriptType {
    P2wpkhP2sh,
    P2wpkh,
    P2tr,
}

/// What the device reports about itself.
#[derive(Clone, Debug)]
pub struct DeviceInfo {
    pub name: String,
    pub version: String,
    pub initialized: bool,
}

pub open spec fn coin_spec(testnet: bool) -> Coin {
    if testnet {
        Coin::Tbtc
    } else {
        Coin::Btc
    }
}

/// The encoding named by a lowercase text; any name but `tpub` means `xpub`.
pub open spec fn xpub_type_spec(lowered: Seq<char>) -> XpubType {
    if lowered == "tpub"@ {
        XpubType::Tpub
    } else {
        XpubType::Xpub
    }
}

/// The script named by a lowercase text; an unknown name means `p2wpkh`.
pub open spec fn script_type_spec(lowered: Seq<char>) -> ScriptType {
    if lowered == "p2wpkhp2sh"@ {
        ScriptType::P2wpkhP2sh
    } else if lowered == "p2tr"@ {
        ScriptType::P2tr
    } else {
        ScriptType::P2wpkh
    }
}

/// The network a key encoding belongs to.
pub open spec fn coin_of_xpub_spec(t: XpubType) -> Coin {
    match t {
        XpubType::Tpub => Coin::Tbtc,
        XpubType::Xpub => Coin::Btc,
    }
}

pub fn coin_for(testnet: bool) -> (r: Coin)
    ensures
        r == coin_spec(testnet),
{
    if testnet {
        Coin::Tbtc
    } else {
        Coin::Btc
    }
}

pub fn coin_of_xpub(t: XpubType) -> (r: Coin)
    ensures
        r == coin_of_xpub_spec(t),
{
    match t {
        XpubType::Tpub => Coin::Tbtc,
        XpubType::Xpub => Coin::Btc,
    }
}

/// The key encoding named by an already lowercased text.
pub fn xpub_type_from_lowered(lowered: &str) -> (r: XpubType)
    ensures
        r == xpub_type_spec(lowered@),
{
    if same_text(lowered, "tpub") {
        XpubType::Tpub
    } else {
        XpubType::Xpub
    }
}

/// The key encoding named by `s`, in any case.
pub fn parse_xpub_type(s: &str) -> (r: XpubType)
    ensures
        r == xpub_type_spec(lower_of(s@)),
{
    let lowered = lowercase(s);
    xpub_type_from_lowered(lowered.as_str())
}

/// The script named by an already lowercased text.
pub fn script_type_from_lowered(lowered: &str) -> (r: ScriptType)
    ensures
        r == script_type_spec(lowered@),
{
    if same_text(lowered, "p2wpkhp2sh") {
        ScriptType::P2wpkhP2sh
    } else if same_text(lowered, "p2tr") {
        ScriptType::P2tr
    } else {
        ScriptType::P2wpkh
    }
}

/// The script named by `s`, in any case; `p2wpkh` when none is named.
pub fn parse_script_type(s: &Option<String>) -> (r: ScriptType)
    ensures
        r == match s {
            Some(t) => script_type_spec(lower_of(t@)),
            None => ScriptType::P2wpkh,
        },
{
    match s {
        Some(t) => {
            let lowered = lowercase(t.as_str());
            script_type_from_lowered(lowered.as_str())
        },
        None => ScriptType::P2wpkh,
    }
}

/// What the device is asked for an extended public key.
pub struct XpubRequest {
    pub coin: Coin,
    pub xpub_type: XpubType,
    pub keypath: bitbox_api::Keypath,
}

/// What the device is asked to show an address.
pub struct AddressRequest {
    pub coin: Coin,
    pub script_type: ScriptType,
    pub keypath: bitbox_api::Keypath,
}

/// What the device is asked to sign a transaction.
pub struct SignRequest {
    pub coin: Coin,
    pub psbt: bitcoin::psbt::Psbt,
}

impl<P, Q> SessionRegistry<P, Q> {
    /// The session of `serial_number` and the request for its extended public
    /// key at `keypath`, in the encoding `xpub_type` names.
    pub fn get_btc_xpub(&self, serial_number: &String, keypath: &str, xpub_type: &str) -> (r: Result<
        (&Q, XpubRequest),
        BridgeError,
    >)
        requires
            self.wf(),
        ensures
            match r {
                Ok((q, req)) => {
                    &&& lookup(self.paired_view(), serial_number@) == Ok::<Q, BridgeError>(*q)
                    &&& keypath_accepted(keypath@)
                    &&& req.xpub_type == xpub_type_spec(lower_of(xpub_type@))
                    &&& req.coin == coin_of_xpub_spec(req.xpub_type)
                },
                Err(e) => if self.paired_view().contains_key(serial_number@) {
                    e == BridgeError::InvalidInput && !keypath_accepted(keypath@)
                } else {
                    e == BridgeError::NotPaired
                },
            },
    {
        let q = match self.paired_session(serial_number) {
            Ok(q) => q,
            Err(e) => return Err(e),
        };
        let kp = match parse_keypath(keypath) {
            Some(kp) => kp,
            None => return Err(BridgeError::InvalidInput),
        };
        let t = parse_xpub_type(xpub_type);
        let coin = coin_of_xpub(t);
        Ok((q, XpubRequest { coin, xpub_type: t, keypath: kp }))
    }

    /// The session of `serial_number` and the request to show the address at
    /// `keypath` with the script `script_type` names.
    pub fn verify_address(
        &self,
        serial_number: &String,
        keypath: &str,
        testnet: bool,
        script_type: &Option<String>,
    ) -> (r: Result<(&Q, AddressRequest), BridgeError>)
        requires
            self.wf(),
        ensures
            match r {
                Ok((q, req)) => {
                    &&& lookup(self.paired_view(), serial_number@) == Ok::<Q, BridgeError>(*q)
                    &&& keypath_accepted(keypath@)
                    &&& req.coin == coin_spec(testnet)
                    &&& req.script_type == match script_type {
                        Some(t) => script_type_spec(lower_of(t@)),
                        None => ScriptType::P2wpkh,
                    }
                },
                Err(e) => if self.paired_view().contains_key(serial_number@) {
                    e == BridgeError::InvalidInput && !keypath_accepted(keypath@)
                } else {
                    e == BridgeError::NotPaired
                },
            },
    {
        let q = match self.paired_session(serial_number) {
            Ok(q) => q,
            Err(e) => return Err(e),
        };
        let coin = coin_for(testnet);
        let st = parse_script_type(script_type);
        let kp = match parse_keypath(keypath) {
            Some(kp) => kp,
            None => return Err(BridgeError::InvalidInput),
        };
        Ok((q, AddressRequest { coin, script_type: st, keypath: kp }))
    }

    /// The session of `serial_number` and the request to sign the
    /// transaction `psbt_str` holds, surrounding whitespace aside.
    pub fn sign_psbt(&self, serial_number: &String, psbt_str: &str, testnet: bool) -> (r: Result<
        (&Q, SignRequest),
        BridgeError,
    >)
        requires
            self.wf(),
        ensures
            match r {
                Ok((q, req)) => {
                    &&& lookup(self.paired_view(), serial_number@) == Ok::<Q, BridgeError>(*q)
                    &&& psbt_accepted(trim_of(psbt_str@))
                    &&& req.coin == coin_spec(testnet)
                },
                Err(e) => if self.paired_view().contains_key(serial_number@) {
                    e == BridgeError::InvalidInput && !psbt_accepted(trim_of(psbt_str@))
                } else {
                    e == BridgeError::NotPaired
                },
            },
    {
        let q = match self.paired_session(serial_number) {
            Ok(q) => q,
            Err(e) => return Err(e),
        };
        let coin = coin_for(testnet);
        let psbt = match parse_psbt(trimmed(psbt_str)) {
            Some(p) => p,
            None => return Err(BridgeError::InvalidInput),
        };
        Ok((q, SignRequest { coin, psbt }))
    }
}

} // verus!
