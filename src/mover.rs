//! Decisions of a move: what to do when the destination is taken, and which
//! numbered names to try under the rename policy.
use vstd::prelude::*;
use vstd::string::StringExecFns;
use crate::schema::{new_id, ConflictResolution};

verus! {

/// Numbered names tried before falling back to a random prefix.
pub const RENAME_ATTEMPTS: u64 = 1000;

/// What a move does about its computed destination.
#[derive(Clone, Copy, Debug, PartialEq, Eq, Structural)]
pub enum ConflictAction {
    /// Move to the computed destination, replacing what is there, if anything.
    Proceed,
    /// Leave the source where it is; a non-fatal outcome.
    Skip,
    /// Look for a free numbered name beside the computed destination.
    Rename,
}

/// Outcome of one move: where the file went, or why it did not.
#[derive(Clone, Debug)]
pub struct MoveResult {
    pub source: String,
    pub destination: String,
    pub success: bool,
    pub error: Option<String>,
}

/// Character of one decimal digit.
pub open spec fn digit_char(d: nat) -> char {
    seq!['0', '1', '2', '3', '4', '5', '6', '7', '8', '9'][d as int]
}

/// Decimal representation of `n`, without leading zeros.
pub open spec fn decimal(n: nat) -> Seq<char>
    decreases n,
{
    if n < 10 {
        seq![digit_char(n)]
    } else {
        decimal(n / 10).push(digit_char(n % 10))
    }
}

/// `stem (n).ext`, or `stem (n)` when there is no extension.
pub open spec fn numbered_name(stem: Seq<char>, extension: Seq<char>, n: nat) -> Seq<char> {
    if extension.len() == 0 {
        stem + " ("@ + decimal(n) + ")"@
    } else {
        stem + " ("@ + decimal(n) + ")."@ + extension
    }
}

/// The one-character text of digit `d`.
fn digit_str(d: u64) -> (r: &'static str)
    requires
        d < 10,
    ensures
        r@ == seq![digit_char(d as nat)],
{
    match d {
        0 => {
            proof {
                reveal_strlit("0");
            }
            "0"
        },
        1 => {
            proof {
                reveal_strlit("1");
            }
            "1"
        },
        2 => {
            proof {
                reveal_strlit("2");
            }
            "2"
        },
        3 => {
            proof {
                reveal_strlit("3");
            }
            "3"
        },
        4 => {
            proof {
                reveal_strlit("4");
            }
            "4"
        },
        5 => {
            proof {
                reveal_strlit("5");
            }
            "5"
        },
        6 => {
            proof {
                reveal_strlit("6");
            }
            "6"
        },
        7 => {
            proof {
                reveal_strlit("7");
            }
            "7"
        },
        8 => {
            proof {
                reveal_strlit("8");
            }
            "8"
        },
        _ => {
            proof {
                reveal_strlit("9");
            }
            "9"
        },
    }
}

/// Decimal text of `n`.
fn to_decimal(n: u64) -> (r: String)
    ensures
        r@ == decimal(n as nat),
    decreases n,
{
    if n < 10 {
        let r = String::from_str(digit_str(n));
        r
    } else {
        let mut r = to_decimal(n / 10);
        r.append(digit_str(n % 10));
        r
    }
}

/// `a` followed by `b`.
fn concat(a: &str, b: &str) -> (r: String)
    ensures
        r@ == a@ + b@,
{
    let mut r = String::from_str(a);
    r.append(b);
    r
}

/// What the policy asks for, given whether the computed destination is taken.
/// `Ask` stands in for an interactive choice that is not offered yet; until it
/// is, it falls back to `Rename`, the safe default, and this contract says so.
pub fn conflict_action(policy: ConflictResolution, destination_exists: bool) -> (r: ConflictAction)
    ensures
        !destination_exists ==> r == ConflictAction::Proceed,
        destination_exists ==> r == match policy {
            ConflictResolution::Skip => ConflictAction::Skip,
            ConflictResolution::Overwrite => ConflictAction::Proceed,
            ConflictResolution::Rename => ConflictAction::Rename,
            ConflictResolution::Ask => ConflictAction::Rename,
        },
{
    if !destination_exists {
        return ConflictAction::Proceed;
    }
    match policy {
        ConflictResolution::Skip => ConflictAction::Skip,
        ConflictResolution::Overwrite => ConflictAction::Proceed,
        ConflictResolution::Rename => ConflictAction::Rename,
        ConflictResolution::Ask => ConflictAction::Rename,
    }
}

/// The name to try at `attempt` (counting from 1) when renaming around a taken
/// destination, or `None` once the numbered attempts are used up.
pub fn rename_candidate(stem: &str, extension: &str, attempt: u64) -> (r: Option<String>)
    ensures
        1 <= attempt <= RENAME_ATTEMPTS ==> (r matches Some(s) && s@ == numbered_name(stem@, extension@, attempt as nat)),
        (attempt == 0 || attempt > RENAME_ATTEMPTS) ==> r is None,
{
    if attempt == 0 || attempt > RENAME_ATTEMPTS {
        return None;
    }
    let digits = to_decimal(attempt);
    let head = concat(stem, " (");
    let numbered = concat(head.as_str(), digits.as_str());
    if extension.is_empty() {
        let name = concat(numbered.as_str(), ")");
        Some(name)
    } else {
        let closed = concat(numbered.as_str(), ").");
        let name = concat(closed.as_str(), extension);
        Some(name)
    }
}

/// The last-resort name once the numbered attempts are used up: a random id,
/// an underscore, then the original file name.
pub fn fallback_name(file_name: &str) -> (r: String)
    ensures
        exists|prefix: Seq<char>| prefix.len() == 36 && r@ == prefix + "_"@ + file_name@,
{
    let id = new_id();
    let head = concat(id.as_str(), "_");
    let name = concat(head.as_str(), file_name);
    assert(name@ == id@ + "_"@ + file_name@);
    name
}

/// Every decimal representation has at least one digit.
pub proof fn lemma_decimal_nonempty(n: nat)
    ensures
        decimal(n).len() >= 1,
    decreases n,
{
    if n >= 10 {
        lemma_decimal_nonempty(n / 10);
    }
}

/// Different numbers have different decimal representations.
pub proof fn lemma_decimal_injective(a: nat, b: nat)
    requires
        decimal(a) == decimal(b),
    ensures
        a == b,
    decreases a,
{
    let digits = seq!['0', '1', '2', '3', '4', '5', '6', '7', '8', '9'];
    if a < 10 && b < 10 {
        assert(decimal(a)[0] == digits[a as int]);
        assert(decimal(b)[0] == digits[b as int]);
    } else if a < 10 {
        lemma_decimal_nonempty(b / 10);
        assert(decimal(b).len() >= 2);
    } else if b < 10 {
        lemma_decimal_nonempty(a / 10);
        assert(decimal(a).len() >= 2);
    } else {
        assert(decimal(a).last() == digits[(a % 10) as int]);
        assert(decimal(b).last() == digits[(b % 10) as int]);
        assert(decimal(a).drop_last() =~= decimal(a / 10));
        assert(decimal(b).drop_last() =~= decimal(b / 10));
        lemma_decimal_injective(a / 10, b / 10);
    }
}

/// Under the rename policy the numbered names of different attempts differ, so
/// repeated conflicts into one folder never reuse a name.
pub proof fn lemma_numbered_names_distinct(stem: Seq<char>, extension: Seq<char>, a: nat, b: nat)
    requires
        a != b,
    ensures
        numbered_name(stem, extension, a) != numbered_name(stem, extension, b),
{
    if numbered_name(stem, extension, a) == numbered_name(stem, extension, b) {
        reveal_strlit(" (");
        reveal_strlit(")");
        reveal_strlit(").");
        let x = numbered_name(stem, extension, a);
        let start: int = stem.len() as int + 2;
        let tail_len: int = if extension.len() == 0 { 1 } else { 2 + extension.len() as int };
        assert(x.len() == start + decimal(a).len() + tail_len);
        assert(x.len() == start + decimal(b).len() + tail_len);
        assert(x.subrange(start, start + decimal(a).len() as int) =~= decimal(a));
        assert(x.subrange(start, start + decimal(b).len() as int) =~= decimal(b));
        lemma_decimal_injective(a, b);
    }
}

/// The fallback name is never the original file name, so falling back does not
/// land on the taken destination.
pub proof fn lemma_fallback_differs_from_original(prefix: Seq<char>, file_name: Seq<char>)
    requires
        prefix.len() == 36,
    ensures
        prefix + "_"@ + file_name != file_name,
{
    reveal_strlit("_");
    assert((prefix + "_"@ + file_name).len() == file_name.len() + 37);
}

} // verus!
