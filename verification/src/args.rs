//! Build configuration.
//!
//! The raw option values of one invocation are resolved into a validated
//! [`Args`]: path arguments become [`IOType`] locations, optional
//! hexadecimal key and IV fields become 16-byte values defaulting to all
//! zeros, and SA2's companion fields are checked for consistency before any
//! component is read.

use vstd::prelude::*;
use vstd::utf8::encode_utf8;

use crate::hexstr::{decode_key_hex, spec_decode_key, HexError};
use crate::io::IOType;

verus! {

/// The raw option values of one invocation, as the command surface hands
/// them over: paths and hexadecimal fields still as text.
#[derive(Debug)]
pub struct RawArgs {
    pub virage2: String,
    pub bootrom: String,
    pub sk: String,
    pub sa1: String,
    pub sa1_cid: u32,
    pub sa1_key: Option<String>,
    pub sa1_iv: Option<String>,
    pub sa1_key_iv: Option<String>,
    pub sa2: Option<String>,
    pub sa2_cid: Option<u32>,
    pub sa2_key: Option<String>,
    pub sa2_iv: Option<String>,
    pub sa2_key_iv: Option<String>,
    pub outfile: String,
}

/// A configuration error, caught before any component is read.
#[derive(Debug, Clone, Copy, PartialEq, Eq, Structural)]
pub enum ConfigError {
    /// A key, IV or header-IV field holds malformed hexadecimal text.
    InvalidHex(HexError),
    /// SA2 was supplied without its component identifier.
    Sa2WithoutCid,
    /// An SA2 key, IV or header-IV was supplied without SA2 itself.
    Sa2FieldWithoutSa2,
}

/// The validated inputs of one build.
#[derive(Debug)]
pub struct Args {
    pub virage2: IOType,
    pub bootrom: IOType,
    pub sk: IOType,
    pub sa1: IOType,
    pub sa1_cid: u32,
    pub sa1_key: [u8; 16],
    pub sa1_iv: [u8; 16],
    pub sa1_key_iv: [u8; 16],
    pub sa2: Option<IOType>,
    pub sa2_cid: Option<u32>,
    pub sa2_key: Option<[u8; 16]>,
    pub sa2_iv: Option<[u8; 16]>,
    pub sa2_key_iv: Option<[u8; 16]>,
    pub outfile: IOType,
}

/// What resolving one optional key or IV field yields: the all-zero default
/// when absent, else the decoded bytes or the hexadecimal error.
pub open spec fn key_field_result(o: Option<String>) -> Result<Seq<u8>, HexError> {
    match o {
        None => Ok(Seq::new(16, |i: int| 0u8)),
        Some(s) => spec_decode_key(encode_utf8(s@)),
    }
}

/// The first hexadecimal error among the six optional key and IV fields, in
/// the order they are resolved.
pub open spec fn first_key_error(raw: RawArgs) -> Option<HexError> {
    match key_field_result(raw.sa1_key) {
        Err(e) => Some(e),
        Ok(_) => match key_field_result(raw.sa1_iv) {
            Err(e) => Some(e),
            Ok(_) => match key_field_result(raw.sa1_key_iv) {
                Err(e) => Some(e),
                Ok(_) => match key_field_result(raw.sa2_key) {
                    Err(e) => Some(e),
                    Ok(_) => match key_field_result(raw.sa2_iv) {
                        Err(e) => Some(e),
                        Ok(_) => match key_field_result(raw.sa2_key_iv) {
                            Err(e) => Some(e),
                            Ok(_) => None,
                        },
                    },
                },
            },
        },
    }
}

/// SA2 and its companion fields are consistent: SA2 brings its identifier,
/// and no SA2-only field stands without SA2.
pub open spec fn combos_ok(raw: RawArgs) -> bool {
    &&& !(raw.sa2 is Some && raw.sa2_cid is None)
    &&& !(raw.sa2 is None && (raw.sa2_key is Some || raw.sa2_iv is Some
        || raw.sa2_key_iv is Some))
}

/// `r` is the input location named by `path`.
pub open spec fn is_input_of(r: IOType, path: Seq<char>) -> bool {
    if path == "-"@ {
        r is Stdin
    } else {
        r matches IOType::File(p) && p@ == path
    }
}

/// `r` is the output location named by `path`.
pub open spec fn is_output_of(r: IOType, path: Seq<char>) -> bool {
    if path == "-"@ {
        r is Stdout
    } else {
        r matches IOType::File(p) && p@ == path
    }
}

/// `a` is the resolution of `raw`, field by field.
pub open spec fn args_match(a: Args, raw: RawArgs) -> bool {
    &&& is_input_of(a.virage2, raw.virage2@)
    &&& is_input_of(a.bootrom, raw.bootrom@)
    &&& is_input_of(a.sk, raw.sk@)
    &&& is_input_of(a.sa1, raw.sa1@)
    &&& a.sa1_cid == raw.sa1_cid
    &&& key_field_result(raw.sa1_key) matches Ok(v) && a.sa1_key@ == v
    &&& key_field_result(raw.sa1_iv) matches Ok(v) && a.sa1_iv@ == v
    &&& key_field_result(raw.sa1_key_iv) matches Ok(v) && a.sa1_key_iv@ == v
    &&& (raw.sa2 is None ==> (a.sa2 is None && a.sa2_key is None && a.sa2_iv is None
        && a.sa2_key_iv is None))
    &&& (raw.sa2 matches Some(p) ==> (a.sa2 matches Some(io) && is_input_of(io, p@)))
    &&& a.sa2_cid == raw.sa2_cid
    &&& (raw.sa2 is Some ==> (a.sa2_key matches Some(k) && key_field_result(raw.sa2_key)
        matches Ok(v) && k@ == v))
    &&& (raw.sa2 is Some ==> (a.sa2_iv matches Some(k) && key_field_result(raw.sa2_iv)
        matches Ok(v) && k@ == v))
    &&& (raw.sa2 is Some ==> (a.sa2_key_iv matches Some(k) && key_field_result(raw.sa2_key_iv)
        matches Ok(v) && k@ == v))
    &&& is_output_of(a.outfile, raw.outfile@)
}

/// Resolves one optional key or IV field: absent means all zeros.
fn resolve_key_field(o: &Option<String>) -> (r: Result<[u8; 16], HexError>)
    ensures
        r matches Ok(k) ==> (key_field_result(*o) matches Ok(v) && k@ == v),
        r matches Err(e) ==> key_field_result(*o) == Err::<Seq<u8>, HexError>(e),
{
    match o {
        None => {
            let k = [0u8; 16];
            proof {
                assert(k@ =~= Seq::new(16, |i: int| 0u8));
            }
            Ok(k)
        },
        Some(s) => decode_key_hex(s.as_str()),
    }
}

/// Resolves the raw option values of one invocation.
///
/// SA2 without its identifier, or an SA2-only field without SA2, is a
/// configuration error before anything else is looked at; then the six
/// optional key and IV fields are resolved in order and the first malformed
/// one is the error.  On success every path is a location, every key and IV
/// a 16-byte value, and SA2's key material is present exactly when SA2 is.
pub fn resolve_args(raw: RawArgs) -> (r: Result<Args, ConfigError>)
    ensures
        raw.sa2 is Some && raw.sa2_cid is None ==> (r matches Err(e) && e
            == ConfigError::Sa2WithoutCid),
        !(raw.sa2 is Some && raw.sa2_cid is None) && raw.sa2 is None && (raw.sa2_key is Some
            || raw.sa2_iv is Some || raw.sa2_key_iv is Some) ==> (r matches Err(e) && e
            == ConfigError::Sa2FieldWithoutSa2),
        combos_ok(raw) ==> (first_key_error(raw) matches Some(he) ==> (r matches Err(e) && e
            == ConfigError::InvalidHex(he))),
        combos_ok(raw) && first_key_error(raw) is None ==> (r matches Ok(a) && args_match(
            a,
            raw,
        )),
{
    let RawArgs {
        virage2,
        bootrom,
        sk,
        sa1,
        sa1_cid,
        sa1_key,
        sa1_iv,
        sa1_key_iv,
        sa2,
        sa2_cid,
        sa2_key,
        sa2_iv,
        sa2_key_iv,
        outfile,
    } = raw;

    if sa2.is_some() && sa2_cid.is_none() {
        return Err(ConfigError::Sa2WithoutCid);
    }
    if sa2.is_none() && (sa2_key.is_some() || sa2_iv.is_some() || sa2_key_iv.is_some()) {
        return Err(ConfigError::Sa2FieldWithoutSa2);
    }

    let rk_sa1_key = match resolve_key_field(&sa1_key) {
        Ok(k) => k,
        Err(e) => return Err(ConfigError::InvalidHex(e)),
    };
    let rk_sa1_iv = match resolve_key_field(&sa1_iv) {
        Ok(k) => k,
        Err(e) => return Err(ConfigError::InvalidHex(e)),
    };
    let rk_sa1_key_iv = match resolve_key_field(&sa1_key_iv) {
        Ok(k) => k,
        Err(e) => return Err(ConfigError::InvalidHex(e)),
    };
    let rk_sa2_key = match resolve_key_field(&sa2_key) {
        Ok(k) => k,
        Err(e) => return Err(ConfigError::InvalidHex(e)),
    };
    let rk_sa2_iv = match resolve_key_field(&sa2_iv) {
        Ok(k) => k,
        Err(e) => return Err(ConfigError::InvalidHex(e)),
    };
    let rk_sa2_key_iv = match resolve_key_field(&sa2_key_iv) {
        Ok(k) => k,
        Err(e) => return Err(ConfigError::InvalidHex(e)),
    };

    let sa2_present = sa2.is_some();
    let sa2_io: Option<IOType> = match sa2 {
        None => None,
        Some(p) => Some(IOType::input(p.as_str())),
    };

    Ok(
        Args {
            virage2: IOType::input(virage2.as_str()),
            bootrom: IOType::input(bootrom.as_str()),
            sk: IOType::input(sk.as_str()),
            sa1: IOType::input(sa1.as_str()),
            sa1_cid,
            sa1_key: rk_sa1_key,
            sa1_iv: rk_sa1_iv,
            sa1_key_iv: rk_sa1_key_iv,
            sa2: sa2_io,
            sa2_cid,
            sa2_key: if sa2_present {
                Some(rk_sa2_key)
            } else {
                None
            },
            sa2_iv: if sa2_present {
                Some(rk_sa2_iv)
            } else {
                None
            },
            sa2_key_iv: if sa2_present {
                Some(rk_sa2_key_iv)
            } else {
                None
            },
            outfile: IOType::output(outfile.as_str()),
        },
    )
}

} // verus!
