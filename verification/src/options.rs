//! Volume creation options: a typed value parsed from the string map
//! that the container engine sends with a create request.
//!
//! Recognised keys are `quota` (a byte count, either a plain decimal
//! number or a size with an IEC/SI unit), the on/off flags
//! `compression`, `atime`, `exec` and `setuid`, and `snapshot-of`
//! (alias `from`) naming a dataset to clone. Unknown keys are ignored.

use crate::numbers::{
    all_digit_chars, dec_str, dec_string_u64, dec_value, is_digit_char, lemma_dec_str_value,
    parse_u64,
};
use vstd::prelude::*;

verus! {

broadcast use vstd::string::group_string_axioms;

/// Default quota for a new volume: 250 MiB.
pub const DEFAULT_QUOTA: u64 = 250 * 1024 * 1024;

/// Options applied when a volume is created.
pub struct VolumeOptions {
    pub snapshot_of: Option<String>,
    pub quota: u64,
    pub enable_compression: bool,
    pub enable_atime: bool,
    pub enable_exec: bool,
    pub enable_setuid: bool,
}

/// The mathematical content of a [`VolumeOptions`] value.
pub struct OptsModel {
    pub snapshot_of: Option<Seq<char>>,
    pub quota: u64,
    pub enable_compression: bool,
    pub enable_atime: bool,
    pub enable_exec: bool,
    pub enable_setuid: bool,
}

impl View for VolumeOptions {
    type V = OptsModel;

    open spec fn view(&self) -> OptsModel {
        OptsModel {
            snapshot_of: match self.snapshot_of {
                Some(s) => Some(s@),
                None => None,
            },
            quota: self.quota,
            enable_compression: self.enable_compression,
            enable_atime: self.enable_atime,
            enable_exec: self.enable_exec,
            enable_setuid: self.enable_setuid,
        }
    }
}

/// The options model with every key left to its default.
pub open spec fn default_model() -> OptsModel {
    OptsModel {
        snapshot_of: None,
        quota: DEFAULT_QUOTA,
        enable_compression: true,
        enable_atime: false,
        enable_exec: false,
        enable_setuid: false,
    }
}

impl Default for VolumeOptions {
    /// No snapshot source, 250 MiB quota, compression on, everything
    /// else off.
    fn default() -> (d: Self)
        ensures
            d@ == default_model(),
    {
        VolumeOptions {
            snapshot_of: None,
            quota: DEFAULT_QUOTA,
            enable_compression: true,
            enable_atime: false,
            enable_exec: false,
            enable_setuid: false,
        }
    }
}

/// An error from parsing the options map; the payload is the message
/// shown to the engine.
#[derive(Debug)]
pub struct OptsError(pub String);

/// First value stored under `key`, if any.
pub open spec fn opt_lookup(opts: Seq<(String, String)>, key: Seq<char>) -> Option<Seq<char>>
    decreases opts.len(),
{
    if opts.len() == 0 {
        None
    } else if opts[0].0@ == key {
        Some(opts[0].1@)
    } else {
        opt_lookup(opts.drop_first(), key)
    }
}

/// The number of bytes that `byte_unit` reads out of a size string
/// such as `8GiB`, or `None` when the string does not parse.
pub uninterp spec fn unit_bytes(s: Seq<char>) -> Option<u128>;

/// Relies on `byte_unit::Byte::from_str` and `byte_unit::Byte::get_bytes`:
/// together they turn a size string into its number of bytes, a
/// function of the characters alone.
#[verifier::external_body]
fn parse_size_string(s: &String) -> (r: Option<u128>)
    ensures
        r == unit_bytes(s@),
{
    byte_unit::Byte::from_str(s).ok().map(|b| b.get_bytes())
}

/// The byte count denoted by a quota string: a plain decimal number is
/// read exactly; anything else goes through the unit parser. `None`
/// means the string is invalid.
pub open spec fn quota_denoted(s: Seq<char>) -> Option<nat> {
    if s.len() > 0 && all_digit_chars(s) {
        Some(dec_value(s))
    } else {
        match unit_bytes(s) {
            Some(v) => Some(v as nat),
            None => None,
        }
    }
}

/// Outcome of parsing an options map, at the level of the model.
pub enum OptsOutcome {
    Parsed(OptsModel),
    InvalidQuota,
    QuotaOutOfRange,
}

/// What parsing an options map yields: either the options model or
/// one of the two quota errors.
pub open spec fn spec_parse_options(opts: Seq<(String, String)>) -> OptsOutcome {
    let flag = |key: Seq<char>, def: bool|
        match opt_lookup(opts, key) {
            Some(v) => v == "on"@,
            None => def,
        };
    match opt_lookup(opts, "quota"@) {
        Some(q) => match quota_denoted(q) {
            None => OptsOutcome::InvalidQuota,
            Some(v) => if v > u64::MAX {
                OptsOutcome::QuotaOutOfRange
            } else {
                OptsOutcome::Parsed(
                    OptsModel {
                        snapshot_of: snapshot_of_model(opts),
                        quota: v as u64,
                        enable_compression: flag("compression"@, true),
                        enable_atime: flag("atime"@, false),
                        enable_exec: flag("exec"@, false),
                        enable_setuid: flag("setuid"@, false),
                    },
                )
            },
        },
        None => OptsOutcome::Parsed(
            OptsModel {
                snapshot_of: snapshot_of_model(opts),
                quota: DEFAULT_QUOTA,
                enable_compression: flag("compression"@, true),
                enable_atime: flag("atime"@, false),
                enable_exec: flag("exec"@, false),
                enable_setuid: flag("setuid"@, false),
            },
        ),
    }
}

/// The snapshot source: `snapshot-of` wins over its alias `from`.
pub open spec fn snapshot_of_model(opts: Seq<(String, String)>) -> Option<Seq<char>> {
    match opt_lookup(opts, "snapshot-of"@) {
        Some(v) => Some(v),
        None => opt_lookup(opts, "from"@),
    }
}

/// Find the first pair whose key equals `key`.
fn opt_get<'a>(opts: &'a Vec<(String, String)>, key: &String) -> (r: Option<&'a String>)
    ensures
        match r {
            Some(v) => opt_lookup(opts@, key@) == Some(v@),
            None => opt_lookup(opts@, key@) is None,
        },
{
    let n = opts.len();
    let mut i: usize = 0;
    proof {
        assert(opts@.skip(0) =~= opts@);
    }
    while i < n
        invariant
            i <= n,
            n == opts@.len(),
            opt_lookup(opts@, key@) == opt_lookup(opts@.skip(i as int), key@),
        decreases n - i,
    {
        proof {
            assert(opts@.skip(i as int).drop_first() =~= opts@.skip(i + 1));
            assert(opts@.skip(i as int)[0] == opts@[i as int]);
        }
        if opts[i].0 == *key {
            return Some(&opts[i].1);
        }
        i += 1;
    }
    proof {
        assert(opts@.skip(n as int) =~= Seq::<(String, String)>::empty());
    }
    None
}

/// Whether a flag value enables the option: literally `on` and
/// nothing else.
fn flag_value(opts: &Vec<(String, String)>, key: &String, def: bool) -> (r: bool)
    ensures
        r == match opt_lookup(opts@, key@) {
            Some(v) => v == "on"@,
            None => def,
        },
{
    let on = String::from_str("on");
    match opt_get(opts, key) {
        Some(v) => *v == on,
        None => def,
    }
}

/// `s` is non-empty and all decimal digits.
fn all_digits(s: &String) -> (r: bool)
    ensures
        r == (s@.len() > 0 && all_digit_chars(s@)),
{
    let n = s.as_str().unicode_len();
    if n == 0 {
        return false;
    }
    let mut i: usize = 0;
    while i < n
        invariant
            i <= n,
            n == s@.len(),
            forall|k: int| 0 <= k < i ==> is_digit_char(s@[k]),
        decreases n - i,
    {
        let c = s.as_str().get_char(i);
        if !('0' <= c && c <= '9') {
            return false;
        }
        i += 1;
    }
    true
}

/// Parse the engine's options map into [`VolumeOptions`].
///
/// An unreadable `quota` value fails with `Invalid quota specified`;
/// a readable one that does not fit an unsigned 64-bit byte count
/// fails with `Quota out of range`. Every other key defaults.
pub fn parse_options(opts: &Vec<(String, String)>) -> (r: Result<VolumeOptions, OptsError>)
    ensures
        match r {
            Ok(v) => spec_parse_options(opts@) == OptsOutcome::Parsed(v@),
            Err(e) => (spec_parse_options(opts@) == OptsOutcome::InvalidQuota && e.0@
                == "Invalid quota specified"@) || (spec_parse_options(opts@)
                == OptsOutcome::QuotaOutOfRange && e.0@ == "Quota out of range"@),
        },
{
    let quota_key = String::from_str("quota");
    let quota: u64 = match opt_get(opts, &quota_key) {
        None => DEFAULT_QUOTA,
        Some(q) => {
            if all_digits(q) {
                match parse_u64(q.as_str()) {
                    Some(v) => v,
                    None => {
                        return Err(OptsError(String::from_str("Quota out of range")));
                    },
                }
            } else {
                match parse_size_string(q) {
                    None => {
                        return Err(OptsError(String::from_str("Invalid quota specified")));
                    },
                    Some(v) => {
                        if v > 0xffff_ffff_ffff_ffffu128 {
                            return Err(OptsError(String::from_str("Quota out of range")));
                        }
                        v as u64
                    },
                }
            }
        },
    };
    let snap_key = String::from_str("snapshot-of");
    let from_key = String::from_str("from");
    let snapshot_of: Option<String> = match opt_get(opts, &snap_key) {
        Some(v) => Some(v.clone()),
        None => match opt_get(opts, &from_key) {
            Some(v) => Some(v.clone()),
            None => None,
        },
    };
    let compression_key = String::from_str("compression");
    let atime_key = String::from_str("atime");
    let exec_key = String::from_str("exec");
    let setuid_key = String::from_str("setuid");
    Ok(
        VolumeOptions {
            snapshot_of,
            quota,
            enable_compression: flag_value(opts, &compression_key, true),
            enable_atime: flag_value(opts, &atime_key, false),
            enable_exec: flag_value(opts, &exec_key, false),
            enable_setuid: flag_value(opts, &setuid_key, false),
        },
    )
}

/// `on` for an enabled flag, `off` otherwise.
pub open spec fn onoff(b: bool) -> Seq<char> {
    if b {
        "on"@
    } else {
        "off"@
    }
}

/// Render a flag as the pool's `on`/`off` literals.
pub fn onoff_string(b: bool) -> (r: String)
    ensures
        r@ == onoff(b),
{
    if b {
        String::from_str("on")
    } else {
        String::from_str("off")
    }
}

/// `pairs` is the canonical options-map rendering of the model `m`:
/// the five property keys in a fixed order, then the snapshot source
/// if there is one.
pub open spec fn pairs_render(m: OptsModel, pairs: Seq<(String, String)>) -> bool {
    &&& pairs.len() == if m.snapshot_of is Some {
        6int
    } else {
        5int
    }
    &&& pairs[0].0@ == "quota"@ && pairs[0].1@ == dec_str(m.quota as nat)
    &&& pairs[1].0@ == "compression"@ && pairs[1].1@ == onoff(m.enable_compression)
    &&& pairs[2].0@ == "atime"@ && pairs[2].1@ == onoff(m.enable_atime)
    &&& pairs[3].0@ == "exec"@ && pairs[3].1@ == onoff(m.enable_exec)
    &&& pairs[4].0@ == "setuid"@ && pairs[4].1@ == onoff(m.enable_setuid)
    &&& match m.snapshot_of {
        Some(s) => pairs[5].0@ == "snapshot-of"@ && pairs[5].1@ == s,
        None => true,
    }
}

impl VolumeOptions {
    /// Render the options as an options map, the inverse of
    /// [`parse_options`].
    pub fn as_pairs(&self) -> (r: Vec<(String, String)>)
        ensures
            pairs_render(self@, r@),
    {
        let mut r: Vec<(String, String)> = Vec::new();
        r.push((String::from_str("quota"), dec_string_u64(self.quota)));
        r.push((String::from_str("compression"), onoff_string(self.enable_compression)));
        r.push((String::from_str("atime"), onoff_string(self.enable_atime)));
        r.push((String::from_str("exec"), onoff_string(self.enable_exec)));
        r.push((String::from_str("setuid"), onoff_string(self.enable_setuid)));
        match &self.snapshot_of {
            Some(s) => {
                r.push((String::from_str("snapshot-of"), s.clone()));
            },
            None => {},
        }
        r
    }
}

proof fn lemma_lookup_hit(opts: Seq<(String, String)>, key: Seq<char>)
    requires
        opts.len() > 0,
        opts[0].0@ == key,
    ensures
        opt_lookup(opts, key) == Some(opts[0].1@),
{
}

proof fn lemma_lookup_miss(opts: Seq<(String, String)>, key: Seq<char>)
    requires
        opts.len() > 0,
        opts[0].0@ != key,
    ensures
        opt_lookup(opts, key) == opt_lookup(opts.drop_first(), key),
{
}

/// Rendering an options value as an options map and parsing the map
/// back yields the value again, for every field.
pub proof fn lemma_options_round_trip(m: OptsModel, pairs: Seq<(String, String)>)
    requires
        pairs_render(m, pairs),
    ensures
        spec_parse_options(pairs) == OptsOutcome::Parsed(m),
{
    reveal_with_fuel(opt_lookup, 8);
    reveal_strlit("quota");
    reveal_strlit("compression");
    reveal_strlit("atime");
    reveal_strlit("exec");
    reveal_strlit("setuid");
    reveal_strlit("snapshot-of");
    reveal_strlit("from");
    reveal_strlit("on");
    reveal_strlit("off");
    let p1 = pairs.drop_first();
    let p2 = p1.drop_first();
    let p3 = p2.drop_first();
    let p4 = p3.drop_first();
    let p5 = p4.drop_first();
    assert(p1[0] == pairs[1] && p2[0] == pairs[2] && p3[0] == pairs[3] && p4[0] == pairs[4]);
    assert(m.snapshot_of is Some ==> p5[0] == pairs[5]);
    assert(m.snapshot_of is None ==> p5.len() == 0);
    lemma_dec_str_value(m.quota as nat);
    assert("quota"@.len() == 5 && "compression"@.len() == 11 && "atime"@.len() == 5 && "exec"@.len()
        == 4 && "setuid"@.len() == 6 && "snapshot-of"@.len() == 11 && "from"@.len() == 4);
    assert("quota"@[0] == 'q' && "compression"@[0] == 'c' && "atime"@[0] == 'a' && "exec"@[0] == 'e'
        && "snapshot-of"@[0] == 's' && "from"@[0] == 'f');
    assert("quota"@ != "compression"@ && "quota"@ != "atime"@ && "quota"@ != "exec"@ && "quota"@
        != "setuid"@ && "quota"@ != "snapshot-of"@ && "quota"@ != "from"@);
    assert("compression"@ != "atime"@ && "compression"@ != "snapshot-of"@ && "compression"@
        != "from"@);
    assert("atime"@ != "exec"@ && "atime"@ != "snapshot-of"@ && "atime"@ != "from"@);
    assert("exec"@ != "setuid"@ && "exec"@ != "snapshot-of"@ && "exec"@ != "from"@);
    assert("setuid"@ != "snapshot-of"@ && "setuid"@ != "from"@);
    assert(opt_lookup(pairs, "quota"@) == Some(dec_str(m.quota as nat))) by {
        lemma_lookup_hit(pairs, "quota"@);
    }
    assert(opt_lookup(pairs, "compression"@) == Some(onoff(m.enable_compression))) by {
        lemma_lookup_miss(pairs, "compression"@);
        lemma_lookup_hit(p1, "compression"@);
    }
    assert(opt_lookup(pairs, "atime"@) == Some(onoff(m.enable_atime))) by {
        lemma_lookup_miss(pairs, "atime"@);
        lemma_lookup_miss(p1, "atime"@);
        lemma_lookup_hit(p2, "atime"@);
    }
    assert(opt_lookup(pairs, "exec"@) == Some(onoff(m.enable_exec))) by {
        lemma_lookup_miss(pairs, "exec"@);
        lemma_lookup_miss(p1, "exec"@);
        lemma_lookup_miss(p2, "exec"@);
        lemma_lookup_hit(p3, "exec"@);
    }
    assert(opt_lookup(pairs, "setuid"@) == Some(onoff(m.enable_setuid))) by {
        lemma_lookup_miss(pairs, "setuid"@);
        lemma_lookup_miss(p1, "setuid"@);
        lemma_lookup_miss(p2, "setuid"@);
        lemma_lookup_miss(p3, "setuid"@);
        lemma_lookup_hit(p4, "setuid"@);
    }
    assert(quota_denoted(dec_str(m.quota as nat)) == Some(m.quota as nat));
    lemma_lookup_miss(pairs, "snapshot-of"@);
    lemma_lookup_miss(p1, "snapshot-of"@);
    lemma_lookup_miss(p2, "snapshot-of"@);
    lemma_lookup_miss(p3, "snapshot-of"@);
    lemma_lookup_miss(p4, "snapshot-of"@);
    match m.snapshot_of {
        Some(s) => {
            lemma_lookup_hit(p5, "snapshot-of"@);
            assert(opt_lookup(pairs, "snapshot-of"@) == Some(s));
            assert(snapshot_of_model(pairs) == Some(s));
        },
        None => {
            assert(opt_lookup(p5, "snapshot-of"@) is None);
            assert(opt_lookup(pairs, "snapshot-of"@) is None);
            lemma_lookup_miss(pairs, "from"@);
            lemma_lookup_miss(p1, "from"@);
            lemma_lookup_miss(p2, "from"@);
            lemma_lookup_miss(p3, "from"@);
            lemma_lookup_miss(p4, "from"@);
            assert(opt_lookup(p5, "from"@) is None);
            assert(opt_lookup(pairs, "from"@) is None);
            assert(snapshot_of_model(pairs) is None);
        },
    }
    assert(onoff(true) == "on"@);
    assert("on"@.len() == 2 && "off"@.len() == 3);
    assert(onoff(false) != "on"@);
    match spec_parse_options(pairs) {
        OptsOutcome::Parsed(got) => {
            assert(got == m);
        },
        _ => {
            assert(false);
        },
    }
}

} // verus!
