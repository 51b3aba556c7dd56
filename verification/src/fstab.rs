//! Mount-table planning: parse the identifier-query output, check that each
//! reported device path matches the expected partition in order, extract both
//! filesystem identifiers, and build the two entries to append. Planning is
//! pure; nothing is written unless the whole plan succeeds.

use vstd::prelude::*;
use crate::strutil::{contains_seq, contains_sub, find_first, find_sub,
    lemma_find_first_characterizes, match_at};
use crate::uuid::{extract_uuid, spec_extract_uuid};

verus! {

/// A line with its trailing carriage return removed, as `str::lines` yields it.
pub open spec fn strip_cr(l: Seq<char>) -> Seq<char> {
    if l.len() > 0 && l[l.len() - 1] == '\r' {
        l.drop_last()
    } else {
        l
    }
}

/// The lines of `s`, split at newlines, trailing carriage returns removed,
/// the final line ending optional — the view of `str::lines`.
pub open spec fn spec_lines(s: Seq<char>) -> Seq<Seq<char>>
    decreases s.len(),
    via spec_lines_decreases
{
    if s.len() == 0 {
        Seq::empty()
    } else {
        match find_first(s, seq!['\n']) {
            Option::None => seq![strip_cr(s)],
            Option::Some(i) => seq![strip_cr(s.take(i))] + spec_lines(s.skip(i + 1)),
        }
    }
}

#[via_fn]
proof fn spec_lines_decreases(s: Seq<char>) {
    lemma_find_first_characterizes(s, seq!['\n']);
    match find_first(s, seq!['\n']) {
        Option::None => {},
        Option::Some(i) => {
            assert(match_at(s, seq!['\n'], i));
        },
    }
}

/// The line with its trailing carriage return removed.
fn strip_cr_line(l: &str) -> (r: String)
    ensures
        r@ == strip_cr(l@),
{
    let n = l.unicode_len();
    if n > 0 && l.get_char(n - 1) == '\r' {
        let t = l.substring_char(0, n - 1);
        proof {
            assert(t@ =~= strip_cr(l@));
        }
        String::from_str(t)
    } else {
        String::from_str(l)
    }
}

/// The lines of `s`, as `str::lines` yields them.
pub fn split_lines(s: &str) -> (r: Vec<String>)
    ensures
        r.deep_view() == spec_lines(s@),
{
    proof {
        reveal_strlit("\n");
        assert("\n"@ =~= seq!['\n']);
    }
    let mut acc: Vec<String> = Vec::new();
    let mut rem: &str = s;
    loop
        invariant
            acc.deep_view() + spec_lines(rem@) =~= spec_lines(s@),
        decreases rem@.len(),
    {
        proof {
            reveal_strlit("\n");
            assert("\n"@ =~= seq!['\n']);
        }
        let n = rem.unicode_len();
        if n == 0 {
            proof {
                assert(acc.deep_view() =~= spec_lines(s@));
            }
            return acc;
        }
        let ghost prev = acc.deep_view();
        match find_sub(rem, "\n") {
            Option::None => {
                acc.push(strip_cr_line(rem));
                proof {
                    assert(acc.deep_view() =~= prev.push(strip_cr(rem@)));
                    assert(acc.deep_view() =~= spec_lines(s@));
                }
                return acc;
            },
            Option::Some(i) => {
                proof {
                    lemma_find_first_characterizes(rem@, seq!['\n']);
                    assert(match_at(rem@, seq!['\n'], i as int));
                }
                let line = rem.substring_char(0, i);
                acc.push(strip_cr_line(line));
                let next = rem.substring_char(i + 1, n);
                proof {
                    assert(line@ =~= rem@.take(i as int));
                    assert(next@ =~= rem@.skip(i + 1));
                    assert(acc.deep_view() =~= prev.push(strip_cr(rem@.take(i as int))));
                    assert(acc.deep_view() + spec_lines(next@) =~= spec_lines(s@));
                }
                rem = next;
            },
        }
    }
}

/// Why identifier resolution failed: the distinct partition-identity errors.
#[derive(Clone, Copy, Debug, PartialEq, Eq, Structural)]
pub enum MountTableError {
    /// The query reported fewer than two lines.
    TooFewLines,
    /// The first line does not name the expected root partition path.
    RootMismatch,
    /// The first line holds no `UUID="..."` field.
    RootUuidMissing,
    /// The second line does not name the expected boot partition path.
    BootMismatch,
    /// The second line holds no `UUID="..."` field.
    BootUuidMissing,
}

/// The mount-table entry of the root filesystem, checked first at boot.
pub open spec fn spec_root_entry(uuid: Seq<char>) -> Seq<char> {
    "UUID="@ + uuid + " / ext4 defaults 0 1\n"@
}

/// The mount-table entry of the boot filesystem, checked second.
pub open spec fn spec_boot_entry(uuid: Seq<char>) -> Seq<char> {
    "UUID="@ + uuid + " /boot ext4 defaults 0 2"@
}

/// What planning yields on a given query output: the root identifier and the
/// two entries to append, or the first identity error in checking order.
pub open spec fn spec_plan(q: Seq<char>, root_part: Seq<char>, boot_part: Seq<char>)
    -> Result<(Seq<char>, Seq<char>, Seq<char>), MountTableError>
{
    let lines = spec_lines(q);
    if lines.len() < 2 {
        Err(MountTableError::TooFewLines)
    } else if !contains_seq(lines[0], root_part) {
        Err(MountTableError::RootMismatch)
    } else if spec_extract_uuid(lines[0]) is None {
        Err(MountTableError::RootUuidMissing)
    } else if !contains_seq(lines[1], boot_part) {
        Err(MountTableError::BootMismatch)
    } else if spec_extract_uuid(lines[1]) is None {
        Err(MountTableError::BootUuidMissing)
    } else {
        let root_uuid = spec_extract_uuid(lines[0]).unwrap();
        let boot_uuid = spec_extract_uuid(lines[1]).unwrap();
        Ok((root_uuid, spec_root_entry(root_uuid), spec_boot_entry(boot_uuid)))
    }
}

/// The root identifier and the two entries the plan tells the runner to
/// append, in order.
pub struct FstabPlan {
    /// The resolved root filesystem identifier, needed downstream.
    pub root_uuid: String,
    /// The entry binding the root identifier to `/`.
    pub root_entry: String,
    /// The entry binding the boot identifier to `/boot`.
    pub boot_entry: String,
}

/// Plans the mount-table edit for one query output: validates both reported
/// device paths in order, extracts both identifiers, and builds both entries.
/// Fails with the first identity error and then plans nothing to write.
pub fn plan_mount_table(query: &str, root_part: &str, boot_part: &str)
    -> (r: Result<FstabPlan, MountTableError>)
    ensures
        match r {
            Ok(plan) => spec_plan(query@, root_part@, boot_part@)
                == Ok::<_, MountTableError>(
                    (plan.root_uuid@, plan.root_entry@, plan.boot_entry@)),
            Err(e) => spec_plan(query@, root_part@, boot_part@)
                == Err::<(Seq<char>, Seq<char>, Seq<char>), _>(e),
        },
{
    let lines = split_lines(query);
    if lines.len() < 2 {
        return Err(MountTableError::TooFewLines);
    }
    proof {
        assert(lines.deep_view()[0] == lines@[0]@);
        assert(lines.deep_view()[1] == lines@[1]@);
    }
    let line0: &String = &lines[0];
    if !contains_sub(line0.as_str(), root_part) {
        return Err(MountTableError::RootMismatch);
    }
    let root_uuid = match extract_uuid(line0.as_str()) {
        Option::None => {
            return Err(MountTableError::RootUuidMissing);
        },
        Option::Some(u) => u,
    };
    let line1: &String = &lines[1];
    if !contains_sub(line1.as_str(), boot_part) {
        return Err(MountTableError::BootMismatch);
    }
    let boot_uuid = match extract_uuid(line1.as_str()) {
        Option::None => {
            return Err(MountTableError::BootUuidMissing);
        },
        Option::Some(u) => u,
    };
    let mut root_entry = String::from_str("UUID=");
    root_entry.append(root_uuid.as_str());
    root_entry.append(" / ext4 defaults 0 1\n");
    let mut boot_entry = String::from_str("UUID=");
    boot_entry.append(boot_uuid.as_str());
    boot_entry.append(" /boot ext4 defaults 0 2");
    proof {
        assert(root_entry@ =~= spec_root_entry(root_uuid@));
        assert(boot_entry@ =~= spec_boot_entry(boot_uuid@));
    }
    Ok(FstabPlan { root_uuid, root_entry, boot_entry })
}

/// When either reported device path fails the identity check, planning yields
/// an error: there is never a partial plan, so nothing is written.
pub proof fn lemma_identity_mismatch_no_entries(
    q: Seq<char>,
    root_part: Seq<char>,
    boot_part: Seq<char>,
)
    requires
        spec_lines(q).len() < 2 || !contains_seq(spec_lines(q)[0], root_part)
            || !contains_seq(spec_lines(q)[1], boot_part),
    ensures
        spec_plan(q, root_part, boot_part) is Err,
{
}

} // verus!
