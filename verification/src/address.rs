//! How an address names its actor in log messages.
use vstd::prelude::*;
use crate::text::{decimal, push_decimal};

verus! {

/// The type path of the peer that the remote part uses, as it reads once the module paths
/// are stripped from it. Log messages show it as just "Peer".
pub const PEER_TYPE: &'static str = "Peer<Compat01As03Sink<SplitSink<Framed<TcpStream, MulServTokioCodec<MultiServiceImpl<ServiceID, ConnID, Codecs>>>>, MultiServiceImpl<ServiceID, ConnID, Codecs>>, MultiServiceImpl<ServiceID, ConnID, Codecs>>";

/// Whether `pattern` is a regular expression that `regex::Regex::new` accepts.
pub uninterp spec fn regex_valid(pattern: Seq<char>) -> bool;

/// `hay` with every non-overlapping match of the regular expression `pattern` replaced by
/// `rep`, as `regex::Regex::replace_all` gives it.
pub uninterp spec fn regex_replaced(pattern: Seq<char>, hay: Seq<char>, rep: Seq<char>) -> Seq<char>;

/// Calls `regex::Regex::new` with `pattern`, then `regex::Regex::replace_all` on `hay` with
/// the replacement `rep`. `None` when `Regex::new` refuses the pattern (its validity is named
/// [`regex_valid`]); else the result, named [`regex_replaced`]. Nothing else is claimed of
/// either.
#[verifier::external_body]
fn regex_replace_all(pattern: &str, hay: &str, rep: &str) -> (res: Option<String>)
    ensures
        res is Some <==> regex_valid(pattern@),
        res matches Some(s) ==> s@ == regex_replaced(pattern@, hay@, rep@),
{
    match regex::Regex::new(pattern) {
        Ok(re) => Some(re.replace_all(hay, rep).into_owned()),
        Err(_) => None,
    }
}

/// The regular expression of a module path segment and its separator.
pub const PATH_SEGMENT: &'static str = r"\w+::";

/// Whether `s` holds `pat` at position `i`.
pub open spec fn holds_at(s: Seq<char>, i: int, pat: Seq<char>) -> bool {
    0 <= i && i + pat.len() <= s.len() && s.subrange(i, i + pat.len()) == pat
}

/// `s` with every occurrence of `pat` replaced by `rep`, scanning from the left: an
/// occurrence that overlaps one replaced before it is not replaced.
pub open spec fn replaced(s: Seq<char>, pat: Seq<char>, rep: Seq<char>) -> Seq<char>
    decreases s.len(),
{
    if s.len() == 0 || pat.len() == 0 {
        s
    } else if holds_at(s, 0, pat) {
        rep + replaced(s.skip(pat.len() as int), pat, rep)
    } else {
        seq![s[0]] + replaced(s.skip(1), pat, rep)
    }
}

/// Whether `s` holds `pat` at position `i`.
fn holds_at_exec(s: &str, s_len: usize, i: usize, pat: &str, pat_len: usize) -> (res: bool)
    requires
        s_len == s@.len(),
        pat_len == pat@.len(),
        i <= s_len,
    ensures
        res == holds_at(s@, i as int, pat@),
{
    if pat_len > s_len - i {
        return false;
    }
    let mut j: usize = 0;
    while j < pat_len
        invariant
            i + pat_len <= s_len,
            s_len == s@.len(),
            pat_len == pat@.len(),
            j <= pat_len,
            forall|k: int| 0 <= k < j ==> s@[i + k] == pat@[k],
        decreases pat_len - j,
    {
        if s.get_char(i + j) != pat.get_char(j) {
            assert(s@.subrange(i as int, i + pat_len)[j as int] != pat@[j as int]);
            return false;
        }
        j = j + 1;
    }
    assert(s@.subrange(i as int, i + pat_len) =~= pat@);
    true
}

/// `s` with every occurrence of `pat` replaced by `rep`, scanning from the left. An empty
/// `pat` leaves `s` as it is (where `str::replace` would put `rep` between the characters).
pub fn replace_all(s: &str, pat: &str, rep: &str) -> (res: String)
    ensures
        res@ == replaced(s@, pat@, rep@),
{
    let s_len = s.unicode_len();
    let pat_len = pat.unicode_len();
    let mut out = String::new();
    if pat_len == 0 {
        out.append(s);
        assert(out@ =~= s@);
        return out;
    }
    let mut i: usize = 0;
    assert(s@.skip(0) =~= s@);
    assert(out@ + replaced(s@, pat@, rep@) =~= replaced(s@, pat@, rep@));
    while i < s_len
        invariant
            s_len == s@.len(),
            pat_len == pat@.len(),
            pat_len > 0,
            i <= s_len,
            out@ + replaced(s@.skip(i as int), pat@, rep@) == replaced(s@, pat@, rep@),
        decreases s_len - i,
    {
        let ghost rest = s@.skip(i as int);
        if holds_at_exec(s, s_len, i, pat, pat_len) {
            assert(rest.subrange(0, pat_len as int) =~= s@.subrange(i as int, i + pat_len));
            assert(holds_at(rest, 0, pat@));
            assert(rest.skip(pat_len as int) =~= s@.skip(i + pat_len));
            out.append(rep);
            i = i + pat_len;
        } else {
            assert(!holds_at(rest, 0, pat@)) by {
                if holds_at(rest, 0, pat@) {
                    assert(rest.subrange(0, pat_len as int) =~= s@.subrange(i as int, i + pat_len));
                }
            }
            assert(rest.skip(1) =~= s@.skip(i + 1));
            let c = s.get_char(i);
            let ghost before = out@;
            crate::text::push_char(&mut out, c);
            assert(out@ =~= before + seq![c]);
            i = i + 1;
        }
    }
    assert(s@.skip(s_len as int) =~= Seq::<char>::empty());
    assert(out@ =~= out@ + Seq::<char>::empty());
    out
}

/// The name of a type for log messages: every module path segment (a match of
/// [`PATH_SEGMENT`]) removed, and the long type of the remote peer shortened to "Peer".
/// `None` only if the regular expression engine refuses [`PATH_SEGMENT`].
pub fn clean_name(name: &str) -> (res: Option<String>)
    ensures
        res is Some <==> regex_valid(PATH_SEGMENT@),
        res matches Some(s) ==> s@ == replaced(
            regex_replaced(PATH_SEGMENT@, name@, ""@),
            PEER_TYPE@,
            "Peer"@,
        ),
{
    match regex_replace_all(PATH_SEGMENT, name, "") {
        Some(s) => Some(replace_all(s.as_str(), PEER_TYPE, "Peer")),
        None => None,
    }
}

/// The part a name adds to a log message: " - (name)", or nothing without a name.
pub open spec fn name_suffix(name: Option<Seq<char>>) -> Seq<char> {
    match name {
        Some(n) => " - ("@ + n + ")"@,
        None => Seq::empty(),
    }
}

/// The name of the actor as a string for log messages: " - (name)", or the empty string when
/// the actor has no name.
pub fn string_name(name: Option<&str>) -> (res: String)
    ensures
        res@ == name_suffix(
            match name {
                Some(n) => Some(n@),
                None => None,
            },
        ),
{
    match name {
        Some(n) => {
            let mut s = String::from_str(" - (");
            s.append(n);
            s.append(")");
            s
        },
        None => String::new(),
    }
}

/// The identity of an actor for log messages: its id, followed by " - (name)" when it has a
/// name.
pub fn identity(id: usize, name: Option<&str>) -> (res: String)
    ensures
        res@ == decimal(id as nat) + name_suffix(
            match name {
                Some(n) => Some(n@),
                None => None,
            },
        ),
{
    let mut s = String::new();
    push_decimal(&mut s, id);
    let suffix = string_name(name);
    s.append(suffix.as_str());
    s
}

/// The debug form of an address or a mailbox: "Addr<path::Type> ~ 7", followed by ", name"
/// when the actor has a name.
pub open spec fn debug_form(kind: Seq<char>, type_path: Seq<char>, id: nat, name: Option<Seq<char>>) -> Seq<char> {
    let base = kind + "<"@ + type_path + "> ~ "@ + decimal(id);
    match name {
        Some(n) => base + ", "@ + n,
        None => base,
    }
}

/// The display form of an address or a mailbox: "Type (7)", or "Type (7, name)" when the
/// actor has a name.
pub open spec fn display_form(actor_type: Seq<char>, id: nat, name: Option<Seq<char>>) -> Seq<char> {
    match name {
        Some(n) => actor_type + " ("@ + decimal(id) + ", "@ + n + ")"@,
        None => actor_type + " ("@ + decimal(id) + ")"@,
    }
}

/// The debug form of an address or a mailbox of the kind `kind` ("Addr", "WeakAddr",
/// "Mailbox") for an actor of the type `type_path`.
pub fn debug_text(kind: &str, type_path: &str, id: usize, name: Option<&str>) -> (res: String)
    ensures
        res@ == debug_form(
            kind@,
            type_path@,
            id as nat,
            match name {
                Some(n) => Some(n@),
                None => None,
            },
        ),
{
    let mut s = String::from_str(kind);
    s.append("<");
    s.append(type_path);
    s.append("> ~ ");
    push_decimal(&mut s, id);
    match name {
        Some(n) => {
            s.append(", ");
            s.append(n);
        },
        None => {},
    }
    s
}

/// The display form of an address or a mailbox.
pub fn display_text(actor_type: &str, id: usize, name: Option<&str>) -> (res: String)
    ensures
        res@ == display_form(
            actor_type@,
            id as nat,
            match name {
                Some(n) => Some(n@),
                None => None,
            },
        ),
{
    let mut s = String::from_str(actor_type);
    s.append(" (");
    push_decimal(&mut s, id);
    match name {
        Some(n) => {
            s.append(", ");
            s.append(n);
        },
        None => {},
    }
    s.append(")");
    s
}

} // verus!
