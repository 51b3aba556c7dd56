//! Filesystem-identifier extraction: a delimited-field scan that finds the
//! literal marker `UUID="` in a query line and returns the text up to the
//! next quote.

use vstd::prelude::*;
use crate::strutil::{contains_seq, find_first, find_sub, lemma_find_first_characterizes,
    match_at};

verus! {

/// The marker that introduces a filesystem identifier in a query line.
pub open spec fn uuid_marker() -> Seq<char> {
    "UUID=\""@
}

/// The identifier a delimited-field scan of `line` yields: the text between
/// the first `UUID="` marker and the next quote, if both are present.
pub open spec fn spec_extract_uuid(line: Seq<char>) -> Option<Seq<char>> {
    match find_first(line, uuid_marker()) {
        Option::None => None,
        Option::Some(start) => {
            let rest = line.skip(start + uuid_marker().len() as int);
            match find_first(rest, seq!['"']) {
                Option::None => None,
                Option::Some(end) => Some(rest.take(end)),
            }
        },
    }
}

/// The identifier between the first `UUID="` and the next quote of `line`,
/// or `None` when the marker or the closing quote is missing.
pub fn extract_uuid(line: &str) -> (r: Option<String>)
    ensures
        match r {
            Option::Some(u) => spec_extract_uuid(line@) == Some(u@),
            Option::None => spec_extract_uuid(line@) is None,
        },
{
    proof {
        reveal_strlit("UUID=\"");
        reveal_strlit("\"");
        assert("\""@ =~= seq!['"']);
        lemma_find_first_characterizes(line@, uuid_marker());
    }
    match find_sub(line, "UUID=\"") {
        Option::None => None,
        Option::Some(start) => {
            let n = line.unicode_len();
            assert(start + 6 <= n) by {
                assert(match_at(line@, uuid_marker(), start as int));
            }
            let rest = line.substring_char(start + 6, n);
            proof {
                assert(rest@ =~= line@.skip(start + uuid_marker().len() as int));
            }
            match find_sub(rest, "\"") {
                Option::None => None,
                Option::Some(end) => {
                    assert(end + 1 <= rest@.len()) by {
                        lemma_find_first_characterizes(rest@, "\""@);
                        assert(match_at(rest@, seq!['"'], end as int));
                    }
                    let u = rest.substring_char(0, end);
                    proof {
                        assert(u@ =~= line@.skip(
                            start + uuid_marker().len() as int).take(end as int));
                    }
                    Some(String::from_str(u))
                },
            }
        },
    }
}

/// A line without the `UUID="` marker yields no identifier.
pub proof fn lemma_extract_uuid_not_found(line: Seq<char>)
    requires
        !contains_seq(line, uuid_marker()),
    ensures
        spec_extract_uuid(line) is None,
{
    lemma_find_first_characterizes(line, uuid_marker());
    match find_first(line, uuid_marker()) {
        Option::None => {},
        Option::Some(i) => {
            assert(match_at(line, uuid_marker(), i));
            assert(contains_seq(line, uuid_marker()));
        },
    }
}

/// For a line of the form prefix, `UUID="`, x, quote, suffix — with no quote
/// character inside the prefix or inside x — extraction yields exactly x.
pub proof fn lemma_extract_uuid_exact(prefix: Seq<char>, x: Seq<char>, suffix: Seq<char>)
    requires
        !prefix.contains('"'),
        !x.contains('"'),
    ensures
        spec_extract_uuid(prefix + uuid_marker() + x + seq!['"'] + suffix) == Some(x),
{
    reveal_strlit("UUID=\"");
    let line = prefix + uuid_marker() + x + seq!['"'] + suffix;
    let p = prefix.len() as int;
    let m = uuid_marker().len() as int;
    assert(m == 6);

    // The marker occurs at p.
    assert(match_at(line, uuid_marker(), p)) by {
        assert(line.subrange(p, p + 6) =~= uuid_marker());
    }

    // The marker occurs nowhere before p: its closing quote would have to be
    // a quote inside the prefix, or one of the five quote-free marker
    // characters.
    assert forall|j: int| 0 <= j < p implies !match_at(line, uuid_marker(), j) by {
        if match_at(line, uuid_marker(), j) {
            assert(line.subrange(j, j + 6)[5] == uuid_marker()[5]);
            assert(line[j + 5] == '"');
            if j + 5 < p {
                assert(line[j + 5] == prefix[j + 5]);
                assert(prefix.contains('"'));
            } else {
                assert(line[j + 5] == uuid_marker()[j + 5 - p]);
            }
        }
    }

    lemma_find_first_characterizes(line, uuid_marker());
    match find_first(line, uuid_marker()) {
        Option::None => {
            assert(contains_seq(line, uuid_marker()));
        },
        Option::Some(i) => {
            assert(i == p);
        },
    }

    let rest = line.skip(p + 6);
    assert(rest =~= x + seq!['"'] + suffix);
    let xl = x.len() as int;

    // The closing quote is the first quote of the remainder.
    assert(match_at(rest, seq!['"'], xl)) by {
        assert(rest.subrange(xl, xl + 1) =~= seq!['"']);
    }
    assert forall|j: int| 0 <= j < xl implies !match_at(rest, seq!['"'], j) by {
        if match_at(rest, seq!['"'], j) {
            assert(rest.subrange(j, j + 1)[0] == '"');
            assert(rest[j] == x[j]);
            assert(x.contains('"'));
        }
    }
    lemma_find_first_characterizes(rest, seq!['"']);
    match find_first(rest, seq!['"']) {
        Option::None => {
            assert(contains_seq(rest, seq!['"']));
        },
        Option::Some(e) => {
            assert(e == xl);
            assert(rest.take(xl) =~= x);
        },
    }
}

} // verus!
