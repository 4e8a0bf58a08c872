//! The device catalog: descriptors for capture-capable endpoints and the
//! policies that build them from one enumeration pass. The host's device
//! lists arrive as plain name sequences; nothing here is cached.

use vstd::prelude::*;
use vstd::string::StrSliceExecFns;

verus! {

/// One capture-capable endpoint: a true input (microphone) or an output
/// usable for loopback capture. `device_type` is "input" or "output".
#[derive(Clone, Debug)]
pub struct AudioDevice {
    pub name: String,
    pub device_type: String,
    pub is_default: bool,
}

/// One endpoint usable for system-output capture, or a synthetic guidance
/// entry when none exists. `device_type` is "system_output" for a real
/// virtual-loopback endpoint, "instruction" for guidance, "error" on
/// platforms without loopback support.
#[derive(Clone, Debug)]
pub struct SystemAudioDevice {
    pub name: String,
    pub device_type: String,
    pub is_default: bool,
}

/// Whether `needle` occurs contiguously inside `hay`.
pub open spec fn contains_seq(hay: Seq<char>, needle: Seq<char>) -> bool {
    exists|i: int|
        0 <= i <= hay.len() - needle.len() && #[trigger] hay.subrange(i, i + needle.len() as int)
            == needle
}

/// Substring search, the only string scan the catalog policies need.
pub fn contains_substr(hay: &str, needle: &str) -> (b: bool)
    ensures
        b == contains_seq(hay@, needle@),
{
    let hlen = hay.unicode_len();
    let nlen = needle.unicode_len();
    if nlen == 0 {
        proof {
            assert(hay@.subrange(0, 0 + needle@.len() as int) =~= needle@);
        }
        return true;
    }
    if hlen < nlen {
        return false;
    }
    let mut i: usize = 0;
    while i <= hlen - nlen
        invariant
            nlen == needle@.len(),
            hlen == hay@.len(),
            1 <= nlen <= hlen,
            i <= hlen - nlen + 1,
            forall|s: int|
                0 <= s < i ==> #[trigger] hay@.subrange(s, s + needle@.len() as int) != needle@,
        decreases hlen - nlen - i + 1,
    {
        let mut j: usize = 0;
        let mut matched = true;
        while j < nlen
            invariant
                nlen == needle@.len(),
                hlen == hay@.len(),
                1 <= nlen <= hlen,
                i + nlen <= hlen,
                j <= nlen,
                matched ==> forall|k: int| 0 <= k < j ==> hay@[i + k] == needle@[k],
                !matched ==> hay@.subrange(i as int, i + needle@.len() as int) != needle@,
            decreases nlen - j,
        {
            if hay.get_char(i + j) != needle.get_char(j) {
                proof {
                    assert(hay@.subrange(i as int, i + needle@.len() as int)[j as int] == hay@[i
                        + j]);
                }
                matched = false;
                j = nlen;
            } else {
                j += 1;
            }
        }
        if matched {
            proof {
                assert(hay@.subrange(i as int, i + needle@.len() as int) =~= needle@);
            }
            return true;
        }
        i += 1;
    }
    false
}

/// Whether the default device of a pass carries exactly this name.
pub open spec fn matches_default(def: Option<String>, name: Seq<char>) -> bool {
    match def {
        Some(d) => d@ == name,
        None => false,
    }
}

/// Whether this name is the given default device's name.
fn is_default_name(def: &Option<String>, name: &String) -> (b: bool)
    ensures
        b == matches_default(*def, name@),
{
    match def {
        Some(d) => d.eq(name),
        None => false,
    }
}

/// Build the full device catalog from one enumeration pass: every input
/// device in order, then every output device in order, each tagged with its
/// role and with whether its name is the pass's default for that role.
pub fn list_devices(input_names: &Vec<String>, output_names: &Vec<String>, default_input: &Option<
    String,
>, default_output: &Option<String>) -> (r: Vec<AudioDevice>)
    ensures
        r@.len() == input_names@.len() + output_names@.len(),
        forall|i: int|
            0 <= i < input_names@.len() ==> {
                &&& (#[trigger] r@[i]).name@ == input_names@[i]@
                &&& r@[i].device_type@ == "input"@
                &&& r@[i].is_default == matches_default(*default_input, input_names@[i]@)
            },
        forall|i: int|
            0 <= i < output_names@.len() ==> {
                &&& (#[trigger] r@[input_names@.len() + i]).name@ == output_names@[i]@
                &&& r@[input_names@.len() + i].device_type@ == "output"@
                &&& r@[input_names@.len() + i].is_default == matches_default(
                    *default_output,
                    output_names@[i]@,
                )
            },
{
    let mut r: Vec<AudioDevice> = Vec::new();
    let mut i: usize = 0;
    while i < input_names.len()
        invariant
            i <= input_names@.len(),
            r@.len() == i,
            forall|k: int|
                0 <= k < i ==> {
                    &&& (#[trigger] r@[k]).name@ == input_names@[k]@
                    &&& r@[k].device_type@ == "input"@
                    &&& r@[k].is_default == matches_default(*default_input, input_names@[k]@)
                },
        decreases input_names@.len() - i,
    {
        let is_default = is_default_name(default_input, &input_names[i]);
        r.push(
            AudioDevice {
                name: input_names[i].clone(),
                device_type: String::from_str("input"),
                is_default,
            },
        );
        i += 1;
    }
    let mut j: usize = 0;
    while j < output_names.len()
        invariant
            j <= output_names@.len(),
            r@.len() == input_names@.len() + j,
            forall|k: int|
                0 <= k < input_names@.len() ==> {
                    &&& (#[trigger] r@[k]).name@ == input_names@[k]@
                    &&& r@[k].device_type@ == "input"@
                    &&& r@[k].is_default == matches_default(*default_input, input_names@[k]@)
                },
            forall|k: int|
                0 <= k < j ==> {
                    &&& (#[trigger] r@[input_names@.len() + k]).name@ == output_names@[k]@
                    &&& r@[input_names@.len() + k].device_type@ == "output"@
                    &&& r@[input_names@.len() + k].is_default == matches_default(
                        *default_output,
                        output_names@[k]@,
                    )
                },
        decreases output_names@.len() - j,
    {
        let is_default = is_default_name(default_output, &output_names[j]);
        r.push(
            AudioDevice {
                name: output_names[j].clone(),
                device_type: String::from_str("output"),
                is_default,
            },
        );
        j += 1;
    }
    r
}

/// Whether a device name carries one of the recognized virtual-loopback
/// driver signatures.
pub open spec fn is_loopback_name(n: Seq<char>) -> bool {
    ||| contains_seq(n, "BlackHole"@)
    ||| contains_seq(n, "Soundflower"@)
    ||| contains_seq(n, "VB-Audio"@)
    ||| contains_seq(n, "Loopback"@)
}

/// Exec form of `is_loopback_name`.
pub fn has_loopback_signature(name: &str) -> (b: bool)
    ensures
        b == is_loopback_name(name@),
{
    contains_substr(name, "BlackHole") || contains_substr(name, "Soundflower") || contains_substr(
        name,
        "VB-Audio",
    ) || contains_substr(name, "Loopback")
}

/// The subsequence of names carrying a loopback signature, in order.
pub open spec fn loopback_names_of(names: Seq<Seq<char>>) -> Seq<Seq<char>>
    decreases names.len(),
{
    if names.len() == 0 {
        Seq::empty()
    } else {
        let rest = loopback_names_of(names.drop_last());
        if is_loopback_name(names.last()) {
            rest.push(names.last())
        } else {
            rest
        }
    }
}

/// No name of the pass carries a loopback signature exactly when the
/// loopback subsequence is empty.
pub proof fn lemma_no_loopback_names(names: Seq<Seq<char>>)
    ensures
        loopback_names_of(names).len() == 0 <==> (forall|i: int|
            0 <= i < names.len() ==> !is_loopback_name(#[trigger] names[i])),
    decreases names.len(),
{
    if names.len() > 0 {
        lemma_no_loopback_names(names.drop_last());
        if loopback_names_of(names).len() == 0 {
            assert forall|i: int| 0 <= i < names.len() implies !is_loopback_name(
                #[trigger] names[i],
            ) by {
                if i < names.len() - 1 {
                    assert(names.drop_last()[i] == names[i]);
                }
            }
        } else {
            if !is_loopback_name(names.last()) {
                let rest = names.drop_last();
                let w = choose|i: int| 0 <= i < rest.len() && is_loopback_name(#[trigger] rest[i]);
                assert(names[w] == rest[w]);
            }
        }
    }
}

/// Filter the input pass down to recognized virtual-loopback endpoints.
/// Absence of the capability is reported as data, never as an error: with no
/// matching name the result is exactly one synthetic guidance descriptor, so
/// the sequence is never empty.
pub fn list_loopback_devices(input_names: &Vec<String>) -> (r: Vec<SystemAudioDevice>)
    ensures
        r@.len() >= 1,
        ({
            let matched = loopback_names_of(input_names.deep_view());
            if matched.len() == 0 {
                &&& r@.len() == 1
                &&& r@[0].name@ == "No system audio devices found - Install BlackHole"@
                &&& r@[0].device_type@ == "instruction"@
                &&& !r@[0].is_default
            } else {
                &&& r@.len() == matched.len()
                &&& forall|i: int|
                    0 <= i < matched.len() ==> {
                        &&& (#[trigger] r@[i]).name@ == matched[i]
                        &&& r@[i].device_type@ == "system_output"@
                        &&& !r@[i].is_default
                    }
            }
        }),
{
    let ghost all = input_names.deep_view();
    let mut r: Vec<SystemAudioDevice> = Vec::new();
    let mut i: usize = 0;
    proof {
        assert(all.take(0) =~= Seq::<Seq<char>>::empty());
    }
    while i < input_names.len()
        invariant
            i <= input_names@.len(),
            all == input_names.deep_view(),
            all.len() == input_names@.len(),
            forall|k: int| 0 <= k < all.len() ==> all[k] == input_names@[k]@,
            r@.len() == loopback_names_of(all.take(i as int)).len(),
            forall|k: int|
                0 <= k < r@.len() ==> {
                    &&& (#[trigger] r@[k]).name@ == loopback_names_of(all.take(i as int))[k]
                    &&& r@[k].device_type@ == "system_output"@
                    &&& !r@[k].is_default
                },
        decreases input_names@.len() - i,
    {
        proof {
            assert(all.take(i + 1).drop_last() =~= all.take(i as int));
            assert(all.take(i + 1).last() == all[i as int]);
        }
        if has_loopback_signature(input_names[i].as_str()) {
            r.push(
                SystemAudioDevice {
                    name: input_names[i].clone(),
                    device_type: String::from_str("system_output"),
                    is_default: false,
                },
            );
        }
        i += 1;
    }
    proof {
        assert(all.take(input_names@.len() as int) =~= all);
    }
    if r.len() == 0 {
        r.push(
            SystemAudioDevice {
                name: String::from_str("No system audio devices found - Install BlackHole"),
                device_type: String::from_str("instruction"),
                is_default: false,
            },
        );
    }
    r
}

/// The loopback catalog on a platform without loopback support: one fixed
/// descriptor saying so, never an error and never an empty sequence.
pub fn list_loopback_devices_unsupported() -> (r: Vec<SystemAudioDevice>)
    ensures
        r@.len() == 1,
        r@[0].name@ == "System audio capture not supported on this platform"@,
        r@[0].device_type@ == "error"@,
        !r@[0].is_default,
{
    let mut r: Vec<SystemAudioDevice> = Vec::new();
    r.push(
        SystemAudioDevice {
            name: String::from_str("System audio capture not supported on this platform"),
            device_type: String::from_str("error"),
            is_default: false,
        },
    );
    r
}

} // verus!
