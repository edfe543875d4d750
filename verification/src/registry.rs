//! Registry key construction for the shell integration: which keys, with
//! which values, register one thumbnail provider class. Building the keys is
//! pure string work and fully verified; writing them into the system
//! registry is the installer's business, outside the library.

use vstd::prelude::*;

use vstd::arithmetic::div_mod::lemma_div_denominator;
use vstd::arithmetic::power::pow;

use crate::text::string_push;
use crate::text::string_push_chars;
use crate::text::string_push_str;

verus! {

/// A 128-bit class identifier, written out as upper-case hex digits in
/// 8-4-4-4-12 groups.
#[derive(Clone, Copy, Debug, PartialEq, Eq, Structural)]
pub struct Guid {
    pub data: u128,
}

impl Guid {
    pub fn from_u128(data: u128) -> (g: Guid)
        ensures
            g.data == data,
    {
        Guid { data }
    }

    /// The textual form of the identifier, without braces:
    /// 32 upper-case hex digits in 8-4-4-4-12 groups.
    pub fn to_string(&self) -> (s: String)
        ensures
            s@ == spec_guid_chars(self.data),
    {
        let chars = guid_chars(self.data);
        let mut s = String::new();
        string_push_chars(&mut s, &chars);
        proof {
            assert(s@ =~= spec_guid_chars(self.data));
        }
        s
    }
}

/// The data of one registry value.
#[derive(Debug, PartialEq, Eq)]
pub enum RegistryData {
    Str(String),
    U32(u32),
}

/// One named registry value under a key.
#[derive(Debug, PartialEq, Eq)]
pub struct RegistryValue(pub String, pub RegistryData);

/// One registry key with its values.
#[derive(Debug, PartialEq, Eq)]
pub struct RegistryKey {
    pub path: String,
    pub values: Vec<RegistryValue>,
}

/// The upper-case hex digit character for a value below 16.
pub open spec fn hex_char(d: int) -> char {
    if d == 0 {
        '0'
    } else if d == 1 {
        '1'
    } else if d == 2 {
        '2'
    } else if d == 3 {
        '3'
    } else if d == 4 {
        '4'
    } else if d == 5 {
        '5'
    } else if d == 6 {
        '6'
    } else if d == 7 {
        '7'
    } else if d == 8 {
        '8'
    } else if d == 9 {
        '9'
    } else if d == 10 {
        'A'
    } else if d == 11 {
        'B'
    } else if d == 12 {
        'C'
    } else if d == 13 {
        'D'
    } else if d == 14 {
        'E'
    } else {
        'F'
    }
}

/// Hex digit `i` of a 128-bit value, counting the most significant of the
/// 32 digits as digit 0.
pub open spec fn nibble(v: u128, i: int) -> int {
    (v as int / pow(16, (31 - i) as nat)) % 16
}

/// The hex digits `from .. from + count` of a 128-bit value, as characters.
pub open spec fn hex_group(v: u128, from: int, count: int) -> Seq<char> {
    Seq::new(count as nat, |k: int| hex_char(nibble(v, from + k)))
}

/// The full textual form of a 128-bit identifier: 32 upper-case hex digits,
/// most significant first, in groups of 8, 4, 4, 4 and 12, separated by
/// dashes.
pub open spec fn spec_guid_chars(v: u128) -> Seq<char> {
    hex_group(v, 0, 8) + seq!['-'] + hex_group(v, 8, 4) + seq!['-'] + hex_group(v, 12, 4)
        + seq!['-'] + hex_group(v, 16, 4) + seq!['-'] + hex_group(v, 20, 12)
}

/// The upper-case hex digit for a value below 16.
fn hex_char_of(d: u8) -> (c: char)
    requires
        d < 16,
    ensures
        c == hex_char(d as int),
{
    if d == 0 {
        '0'
    } else if d == 1 {
        '1'
    } else if d == 2 {
        '2'
    } else if d == 3 {
        '3'
    } else if d == 4 {
        '4'
    } else if d == 5 {
        '5'
    } else if d == 6 {
        '6'
    } else if d == 7 {
        '7'
    } else if d == 8 {
        '8'
    } else if d == 9 {
        '9'
    } else if d == 10 {
        'A'
    } else if d == 11 {
        'B'
    } else if d == 12 {
        'C'
    } else if d == 13 {
        'D'
    } else if d == 14 {
        'E'
    } else {
        'F'
    }
}

/// The 32 hex digits of a 128-bit value, least significant first.
fn guid_nibbles(v: u128) -> (digits: Vec<u8>)
    ensures
        digits@.len() == 32,
        forall|j: int|
            0 <= j < 32 ==> #[trigger] digits@[j] < 16 && digits@[j] as int == nibble(v, 31 - j),
{
    let mut digits: Vec<u8> = Vec::new();
    let mut rest: u128 = v;
    let mut i: usize = 0;
    proof {
        vstd::arithmetic::power::lemma_pow0(16);
        assert(v as int / 1 == v as int);
    }
    while i < 32
        invariant
            i <= 32,
            digits@.len() == i,
            rest as int == v as int / pow(16, i as nat),
            forall|j: int|
                0 <= j < i ==> #[trigger] digits@[j] < 16 && digits@[j] as int == (v as int / pow(
                    16,
                    j as nat,
                )) % 16,
        decreases 32 - i,
    {
        let d: u8 = (rest % 16) as u8;
        digits.push(d);
        rest = rest / 16;
        proof {
            vstd::arithmetic::power::lemma_pow_positive(16, i as nat);
            lemma_div_denominator(v as int, pow(16, i as nat), 16);
            assert(pow(16, i as nat) * 16 == pow(16, (i + 1) as nat)) by {
                vstd::arithmetic::power::lemma_pow_adds(16, i as nat, 1);
                vstd::arithmetic::power::lemma_pow1(16);
            }
        }
        i = i + 1;
    }
    proof {
        assert forall|j: int| 0 <= j < 32 implies #[trigger] digits@[j] < 16 && digits@[j] as int
            == nibble(v, 31 - j) by {
            assert(digits@[j] as int == (v as int / pow(16, j as nat)) % 16);
            assert((31 - (31 - j)) as nat == j as nat);
        }
    }
    digits
}

/// Appends hex digits `from .. from + count` (most significant digit first)
/// of the value whose digits are given least significant first.
fn push_hex_group(
    out: &mut Vec<char>,
    digits: &Vec<u8>,
    from: usize,
    count: usize,
    Ghost(v): Ghost<u128>,
)
    requires
        digits@.len() == 32,
        forall|j: int|
            0 <= j < 32 ==> #[trigger] digits@[j] < 16 && digits@[j] as int == nibble(v, 31 - j),
        from + count <= 32,
    ensures
        final(out)@ == old(out)@ + hex_group(v, from as int, count as int),
{
    let mut k: usize = 0;
    while k < count
        invariant
            k <= count,
            from + count <= 32,
            digits@.len() == 32,
            forall|j: int|
                0 <= j < 32 ==> #[trigger] digits@[j] < 16 && digits@[j] as int == nibble(
                    v,
                    31 - j,
                ),
            out@ == old(out)@ + hex_group(v, from as int, k as int),
        decreases count - k,
    {
        let c = hex_char_of(digits[31 - (from + k)]);
        out.push(c);
        proof {
            assert(out@ =~= old(out)@ + hex_group(v, from as int, k as int + 1));
        }
        k = k + 1;
    }
    proof {
        assert(out@ =~= old(out)@ + hex_group(v, from as int, count as int));
    }
}

/// The characters of a 128-bit identifier's textual form.
fn guid_chars(v: u128) -> (out: Vec<char>)
    ensures
        out@ == spec_guid_chars(v),
{
    let digits = guid_nibbles(v);
    let mut out: Vec<char> = Vec::new();
    push_hex_group(&mut out, &digits, 0, 8, Ghost(v));
    out.push('-');
    push_hex_group(&mut out, &digits, 8, 4, Ghost(v));
    out.push('-');
    push_hex_group(&mut out, &digits, 12, 4, Ghost(v));
    out.push('-');
    push_hex_group(&mut out, &digits, 16, 4, Ghost(v));
    out.push('-');
    push_hex_group(&mut out, &digits, 20, 12, Ghost(v));
    proof {
        assert(out@ =~= spec_guid_chars(v));
    }
    out
}

/// The path of the class key: `CLSID\{<identifier>}`.
pub open spec fn spec_clsid_path(clsid: Guid) -> Seq<char> {
    "CLSID\\{"@ + spec_guid_chars(clsid.data) + "}"@
}

/// The path of the class's in-process-server subkey:
/// `CLSID\{<identifier>}\InProcServer32`.
pub open spec fn spec_inproc_path(clsid: Guid) -> Seq<char> {
    "CLSID\\{"@ + spec_guid_chars(clsid.data) + "}\\InProcServer32"@
}

/// The two keys that register a provider class: the class key, named
/// `Model Thumbnail Handler`, with process isolation switched off when
/// asked, and its in-process-server subkey pointing at the hosting module
/// with threading model `Both`.
pub open spec fn is_clsid_registration(
    keys: Seq<RegistryKey>,
    clsid: Guid,
    module_location: Seq<char>,
    disable_process_isolation: bool,
) -> bool {
    &&& keys.len() == 2
    &&& keys[0].path@ == spec_clsid_path(clsid)
    &&& keys[0].values@.len() == 2
    &&& keys[0].values@[0].0@ == ""@
    &&& keys[0].values@[0].1 matches RegistryData::Str(s) && s@ == "Model Thumbnail Handler"@
    &&& keys[0].values@[1].0@ == "DisableProcessIsolation"@
    &&& keys[0].values@[1].1 == RegistryData::U32(
        if disable_process_isolation {
            1u32
        } else {
            0u32
        },
    )
    &&& keys[1].path@ == spec_inproc_path(clsid)
    &&& keys[1].values@.len() == 2
    &&& keys[1].values@[0].0@ == ""@
    &&& keys[1].values@[0].1 matches RegistryData::Str(s) && s@ == module_location
    &&& keys[1].values@[1].0@ == "ThreadingModel"@
    &&& keys[1].values@[1].1 matches RegistryData::Str(s) && s@ == "Both"@
}

/// The registry keys that register one provider class: the class key and
/// its in-process-server subkey, exactly as [`is_clsid_registration`]
/// describes them.
pub fn register_clsid(clsid: &Guid, module_location: &str, disable_process_isolation: bool) -> (r: Vec<
    RegistryKey,
>)
    ensures
        is_clsid_registration(r@, *clsid, module_location@, disable_process_isolation),
{
    let guid = guid_chars(clsid.data);

    let mut class_path = String::new();
    string_push_str(&mut class_path, "CLSID\\{");
    string_push_chars(&mut class_path, &guid);
    string_push(&mut class_path, '}');
    proof {
        assert("}"@ =~= Seq::<char>::empty().push('}')) by {
            reveal_strlit("}");
        }
        assert(class_path@ =~= spec_clsid_path(*clsid));
    }

    let mut inproc_path = String::new();
    string_push_str(&mut inproc_path, "CLSID\\{");
    string_push_chars(&mut inproc_path, &guid);
    string_push_str(&mut inproc_path, "}\\InProcServer32");
    proof {
        assert(inproc_path@ =~= spec_inproc_path(*clsid));
    }

    let mut class_values: Vec<RegistryValue> = Vec::new();
    class_values.push(
        RegistryValue("".to_owned(), RegistryData::Str("Model Thumbnail Handler".to_owned())),
    );
    class_values.push(
        RegistryValue(
            "DisableProcessIsolation".to_owned(),
            RegistryData::U32(
                if disable_process_isolation {
                    1
                } else {
                    0
                },
            ),
        ),
    );

    let mut inproc_values: Vec<RegistryValue> = Vec::new();
    inproc_values.push(RegistryValue("".to_owned(), RegistryData::Str(module_location.to_owned())));
    inproc_values.push(
        RegistryValue("ThreadingModel".to_owned(), RegistryData::Str("Both".to_owned())),
    );

    let mut r: Vec<RegistryKey> = Vec::new();
    r.push(RegistryKey { path: class_path, values: class_values });
    r.push(RegistryKey { path: inproc_path, values: inproc_values });
    r
}

} // verus!
