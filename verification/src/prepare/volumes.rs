use vstd::prelude::*;

use crate::text::{
    concat, concat3, decimal, decimal_string, join_path, join_path_spec, parse_u64,
    parse_u64_spec, split_on, split_spec, split_words, str_eq, views, words_spec,
};

verus! {

/// Bytes in a kibibyte, mebibyte and gibibyte.
pub const KB: u64 = 1024;
pub const MB: u64 = 1048576;
pub const GB: u64 = 1073741824;

/// `<whole>.<tenth> <unit>` for `b` bytes in units of `unit` bytes (tenths truncated).
pub open spec fn scaled(b: nat, unit: nat, name: Seq<char>) -> Seq<char> {
    decimal(b / unit) + "."@ + decimal((b % unit) * 10 / unit) + " "@ + name
}

/// A byte count for people: GB, MB or KB with one decimal, or plain bytes.
pub open spec fn format_bytes_spec(b: nat) -> Seq<char> {
    if b >= GB {
        scaled(b, GB as nat, "GB"@)
    } else if b >= MB {
        scaled(b, MB as nat, "MB"@)
    } else if b >= KB {
        scaled(b, KB as nat, "KB"@)
    } else {
        decimal(b) + " B"@
    }
}

fn format_scaled(b: u64, unit: u64, name: &str) -> (r: String)
    requires
        unit == KB || unit == MB || unit == GB,
    ensures
        r@ == scaled(b as nat, unit as nat, name@),
{
    let whole = decimal_string(b / unit);
    let rem = b % unit;
    assert(rem * 10 < 0x1_0000_0000_0000_0000);
    let tenth = decimal_string(rem * 10 / unit);
    let mut r = concat3(whole.as_str(), ".", tenth.as_str());
    r.append(" ");
    r.append(name);
    r
}

/// A byte count for people.
pub fn format_bytes(b: u64) -> (r: String)
    ensures
        r@ == format_bytes_spec(b as nat),
{
    if b >= GB {
        format_scaled(b, GB, "GB")
    } else if b >= MB {
        format_scaled(b, MB, "MB")
    } else if b >= KB {
        format_scaled(b, KB, "KB")
    } else {
        let d = decimal_string(b);
        concat(d.as_str(), " B")
    }
}

/// A volume that can hold the storage base directory.
#[derive(Debug)]
pub struct VolumeCandidate {
    /// Where the volume is mounted.
    pub mount_point: String,
    /// Free bytes on the volume.
    pub available_bytes: u64,
    /// The base directory proposed on this volume.
    pub suggested_base: String,
}

impl VolumeCandidate {
    /// `<mount point> (<free> free)`.
    pub open spec fn label_spec(&self) -> Seq<char> {
        self.mount_point@ + " ("@ + format_bytes_spec(self.available_bytes as nat) + " free)"@
    }

    /// How the volume is offered in the storage menu.
    pub fn display_label(&self) -> (r: String)
        ensures
            r@ == self.label_spec(),
    {
        let free = format_bytes(self.available_bytes);
        let mut r = concat3(self.mount_point.as_str(), " (", free.as_str());
        r.append(" free)");
        r
    }
}

/// The base directory proposed on a volume: `mac-k3d` in the home directory on the
/// start-up volume, else `mac-k3d` at the volume's root.
pub open spec fn suggested_base_spec(mount_point: Seq<char>, home: Option<Seq<char>>) -> Seq<char> {
    match home {
        Some(h) => if mount_point == "/"@ {
            join_path_spec(h, "mac-k3d"@)
        } else {
            join_path_spec(mount_point, "mac-k3d"@)
        },
        None => join_path_spec(mount_point, "mac-k3d"@),
    }
}

/// The base directory proposed on a volume.
pub fn suggested_base(mount_point: &str, home: Option<&str>) -> (r: String)
    ensures
        r@ == suggested_base_spec(
            mount_point@,
            match home {
                Some(h) => Some(h@),
                None => None,
            },
        ),
{
    match home {
        Some(h) => if str_eq(mount_point, "/") {
            join_path(h, "mac-k3d")
        } else {
            join_path(mount_point, "mac-k3d")
        },
        None => join_path(mount_point, "mac-k3d"),
    }
}

/// Whether the volumes are ordered by free space, most first.
pub open spec fn by_free_space(v: Seq<VolumeCandidate>) -> bool {
    forall|i: int, j: int| 0 <= i < j < v.len() ==> v[i].available_bytes >= v[j].available_bytes
}

/// The same volumes, ordered by free space, most first.
pub fn order_by_free_space(volumes: Vec<VolumeCandidate>) -> (r: Vec<VolumeCandidate>)
    ensures
        r@.to_multiset() == volumes@.to_multiset(),
        by_free_space(r@),
{
    broadcast use {vstd::seq_lib::group_to_multiset_ensures, vstd::multiset::group_multiset_axioms};

    let mut out: Vec<VolumeCandidate> = Vec::new();
    let mut rest = volumes;
    let ghost orig = rest@;
    let mut src: Vec<VolumeCandidate> = Vec::new();
    // Move the volumes out in reverse so each one is taken from the end.
    while rest.len() > 0
        invariant
            src@ + rest@.reverse() =~= orig.reverse(),
        decreases rest.len(),
    {
        let ghost before = rest@;
        let x = rest.pop().unwrap();
        assert(before =~= rest@.push(x));
        src.push(x);
        assert(before.reverse() =~= seq![x] + rest@.reverse());
    }
    assert(rest@.reverse() =~= Seq::<VolumeCandidate>::empty());
    proof {
        orig.lemma_reverse_to_multiset();
    }
    assert(src@.to_multiset() == orig.to_multiset());
    assert(out@ =~= Seq::<VolumeCandidate>::empty());
    assert(out@.to_multiset() =~= vstd::multiset::Multiset::<VolumeCandidate>::empty());
    assert(out@.to_multiset().add(src@.to_multiset()) =~= orig.to_multiset());
    // Insertion sort into `out`.
    while src.len() > 0
        invariant
            out@.to_multiset().add(src@.to_multiset()) == orig.to_multiset(),
            by_free_space(out@),
        decreases src.len(),
    {
        let ghost before = src@;
        let ghost out0 = out@;
        let x = src.pop().unwrap();
        assert(before =~= src@.push(x));
        proof {
            vstd::seq_lib::to_multiset_build(src@, x);
        }
        assert(before.to_multiset() == src@.push(x).to_multiset());
        assert(before.to_multiset() =~= src@.to_multiset().insert(x));
        let mut k: usize = 0;
        while k < out.len() && out[k].available_bytes >= x.available_bytes
            invariant
                k <= out.len(),
                forall|t: int| 0 <= t < k ==> out@[t].available_bytes >= x.available_bytes,
            decreases out.len() - k,
        {
            k = k + 1;
        }
        let ghost prev = out@;
        out.insert(k, x);
        assert(out@ == prev.insert(k as int, x));
        proof {
            vstd::seq_lib::to_multiset_insert(prev, k as int, x);
        }
        assert(out@.to_multiset() == prev.insert(k as int, x).to_multiset());
        assert(out@.to_multiset() =~= out0.to_multiset().insert(x));
        assert(out@.to_multiset().add(src@.to_multiset()) =~= out0.to_multiset().add(
            before.to_multiset(),
        ));
        assert(by_free_space(out@)) by {
            assert forall|i: int, j: int| 0 <= i < j < out@.len() implies out@[i].available_bytes
                >= out@[j].available_bytes by {
                if j < k {
                } else if j == k {
                    assert(out@[i] == prev[i]);
                } else if i < k {
                    assert(out@[j] == prev[j - 1]);
                    if k < prev.len() {
                        assert(prev[i].available_bytes >= prev[j - 1].available_bytes);
                    }
                } else if i == k {
                    assert(out@[j] == prev[j - 1]);
                    assert(prev[k as int].available_bytes < x.available_bytes);
                    assert(prev[k as int].available_bytes >= prev[j - 1].available_bytes);
                } else {
                    assert(out@[i] == prev[i - 1]);
                    assert(out@[j] == prev[j - 1]);
                }
            }
        }
    }
    assert(src@ =~= Seq::<VolumeCandidate>::empty());
    assert(src@.to_multiset() =~= vstd::multiset::Multiset::<VolumeCandidate>::empty());
    assert(out@.to_multiset() =~= out@.to_multiset().add(src@.to_multiset()));
    out
}

/// The free bytes in the output of `df -k -P <path>`: the fourth word of the
/// second line, in kibibytes (saturating at the largest `u64`).
pub open spec fn df_available_spec(output: Seq<char>) -> Option<u64> {
    let lines = split_spec(output, '\n');
    if lines.len() < 2 {
        None
    } else {
        let words = words_spec(lines[1]);
        if words.len() < 4 {
            None
        } else {
            match parse_u64_spec(words[3]) {
                Some(kb) => Some(
                    if kb as nat * 1024 > u64::MAX as nat {
                        u64::MAX
                    } else {
                        (kb * 1024) as u64
                    },
                ),
                None => None,
            }
        }
    }
}

/// The free bytes that `df -k -P` reports.
pub fn df_available_bytes(output: &str) -> (r: Option<u64>)
    ensures
        r == df_available_spec(output@),
{
    let lines = split_on(output, '\n');
    if lines.len() < 2 {
        return None;
    }
    let words = split_words(lines[1].as_str());
    if words.len() < 4 {
        return None;
    }
    match parse_u64(words[3].as_str()) {
        Some(kb) => if kb > 0xFFFF_FFFF_FFFF_FFFF / 1024 {
            Some(0xFFFF_FFFF_FFFF_FFFF)
        } else {
            Some(kb * 1024)
        },
        None => None,
    }
}

} // verus!
