//! Normalization of the recording hotkey stored in the settings: older
//! front-ends stored DOM `KeyboardEvent.code` symbols that the shortcut
//! parser may not accept, so they are mapped to parser tokens.
use vstd::prelude::*;

use crate::text::{
    chars_of, is_unicode_whitespace, str_eq, string_from_chars, trim_chars, trim_end_seq,
    trim_seq, trim_start_seq,
};

verus! {

/// Whether the global-hotkey parser accepts `s` as a shortcut.
pub uninterp spec fn hotkey_parses(s: Seq<char>) -> bool;

/// `str::parse::<global_hotkey::hotkey::HotKey>` (the shortcut type of the
/// global-shortcut plugin) succeeds. Whether it does is named, not
/// described: it is what the crate's parser decides for `s`. The empty
/// string never parses (it is a single empty key, which no key name matches).
#[verifier::external_body]
pub(crate) fn shortcut_is_valid(s: &str) -> (b: bool)
    ensures
        b == hotkey_parses(s@),
        s@.len() == 0 ==> !b,
{
    s.parse::<global_hotkey::hotkey::HotKey>().is_ok()
}

/// The hotkey of a fresh configuration.
pub open spec fn default_recording_hotkey_seq() -> Seq<char> {
    "CmdOrCtrl+Shift+X"@
}

/// The hotkey of a fresh configuration.
pub fn default_recording_hotkey() -> (s: &'static str)
    ensures
        s@ == default_recording_hotkey_seq(),
{
    "CmdOrCtrl+Shift+X"
}

/// The parser token for one part of a stored hotkey: symbols become key
/// names, everything else stays as it is.
pub open spec fn spec_parser_token(t: Seq<char>) -> Seq<char> {
    if t == "`"@ {
        "Backquote"@
    } else if t == "-"@ {
        "Minus"@
    } else if t == "="@ {
        "Equal"@
    } else if t == "["@ {
        "BracketLeft"@
    } else if t == "]"@ {
        "BracketRight"@
    } else if t == "\\"@ {
        "Backslash"@
    } else if t == ";"@ {
        "Semicolon"@
    } else if t == "'"@ {
        "Quote"@
    } else if t == ","@ {
        "Comma"@
    } else if t == "."@ {
        "Period"@
    } else if t == "/"@ {
        "Slash"@
    } else {
        t
    }
}

/// Maps one part of a stored hotkey to a parser token.
pub fn map_part_to_parser_token(token: &str) -> (r: String)
    ensures
        r@ == spec_parser_token(token@),
{
    if str_eq(token, "`") {
        "Backquote".to_owned()
    } else if str_eq(token, "-") {
        "Minus".to_owned()
    } else if str_eq(token, "=") {
        "Equal".to_owned()
    } else if str_eq(token, "[") {
        "BracketLeft".to_owned()
    } else if str_eq(token, "]") {
        "BracketRight".to_owned()
    } else if str_eq(token, "\\") {
        "Backslash".to_owned()
    } else if str_eq(token, ";") {
        "Semicolon".to_owned()
    } else if str_eq(token, "'") {
        "Quote".to_owned()
    } else if str_eq(token, ",") {
        "Comma".to_owned()
    } else if str_eq(token, ".") {
        "Period".to_owned()
    } else if str_eq(token, "/") {
        "Slash".to_owned()
    } else {
        token.to_owned()
    }
}

/// `str::split('+')`, continuing a piece `cur` already begun.
pub open spec fn split_plus_from(s: Seq<char>, cur: Seq<char>) -> Seq<Seq<char>>
    decreases s.len(),
{
    if s.len() == 0 {
        seq![cur]
    } else if s[0] == '+' {
        seq![cur] + split_plus_from(s.skip(1), Seq::empty())
    } else {
        split_plus_from(s.skip(1), cur.push(s[0]))
    }
}

/// `str::split('+')`: the pieces between the `+` signs (at least one).
pub open spec fn split_plus(s: Seq<char>) -> Seq<Seq<char>> {
    split_plus_from(s, Seq::empty())
}

/// The pieces trimmed, blank ones dropped, the rest mapped to parser tokens.
pub open spec fn mapped_parts(pieces: Seq<Seq<char>>) -> Seq<Seq<char>>
    decreases pieces.len(),
{
    if pieces.len() == 0 {
        Seq::empty()
    } else {
        let rest = mapped_parts(pieces.drop_first());
        let t = trim_seq(pieces[0]);
        if t.len() == 0 {
            rest
        } else {
            seq![spec_parser_token(t)] + rest
        }
    }
}

/// Parts joined with `+`.
pub open spec fn join_plus(parts: Seq<Seq<char>>) -> Seq<char>
    decreases parts.len(),
{
    if parts.len() == 0 {
        Seq::empty()
    } else if parts.len() == 1 {
        parts[0]
    } else {
        parts[0] + seq!['+'] + join_plus(parts.drop_first())
    }
}

/// The normalized hotkey: the trimmed text when the parser accepts it,
/// otherwise the rewritten parts when the parser accepts those, otherwise
/// nothing.
pub open spec fn spec_normalized_hotkey(raw: Seq<char>) -> Option<Seq<char>> {
    let s = trim_seq(raw);
    if s.len() == 0 {
        None
    } else if hotkey_parses(s) {
        Some(s)
    } else {
        let parts = mapped_parts(split_plus(s));
        if parts.len() == 0 {
            None
        } else if hotkey_parses(join_plus(parts)) {
            Some(join_plus(parts))
        } else {
            None
        }
    }
}

/// The views of a sequence of character vectors.
pub open spec fn views(v: Seq<Vec<char>>) -> Seq<Seq<char>> {
    Seq::new(v.len(), |i: int| v[i]@)
}

/// Splits at every `+`.
fn split_on_plus(s: &[char]) -> (pieces: Vec<Vec<char>>)
    ensures
        views(pieces@) == split_plus(s@),
{
    let n = s.len();
    let mut pieces: Vec<Vec<char>> = Vec::new();
    let mut cur: Vec<char> = Vec::new();
    let mut i: usize = 0;
    proof {
        assert(s@.skip(0) =~= s@);
        assert(views(pieces@) + split_plus_from(s@.skip(0), cur@) =~= split_plus(s@));
    }
    while i < n
        invariant
            n == s@.len(),
            i <= n,
            views(pieces@) + split_plus_from(s@.skip(i as int), cur@) == split_plus(s@),
        decreases n - i,
    {
        let ghost rest = s@.skip(i as int);
        proof {
            assert(rest.skip(1) =~= s@.skip(i + 1));
        }
        if s[i] == '+' {
            let ghost old_views = views(pieces@);
            let mut done: Vec<char> = Vec::new();
            std::mem::swap(&mut done, &mut cur);
            let ghost piece = done@;
            pieces.push(done);
            proof {
                assert(views(pieces@) =~= old_views.push(piece));
                assert(split_plus_from(rest, piece) =~= seq![piece] + split_plus_from(
                    s@.skip(i + 1),
                    Seq::empty(),
                ));
                assert(views(pieces@) + split_plus_from(s@.skip(i + 1), cur@) =~= old_views
                    + split_plus_from(rest, piece));
            }
        } else {
            cur.push(s[i]);
        }
        i = i + 1;
    }
    let ghost old_views = views(pieces@);
    let ghost last = cur@;
    pieces.push(cur);
    proof {
        assert(s@.skip(n as int) =~= Seq::<char>::empty());
        assert(views(pieces@) =~= old_views.push(last));
        assert(views(pieces@) =~= old_views + split_plus_from(s@.skip(n as int), last));
    }
    pieces
}

/// Trims every piece, drops the blank ones and maps the others to tokens.
fn map_pieces(pieces: &Vec<Vec<char>>) -> (parts: Vec<Vec<char>>)
    ensures
        views(parts@) == mapped_parts(views(pieces@)),
{
    let n = pieces.len();
    let mut parts: Vec<Vec<char>> = Vec::new();
    let mut i: usize = 0;
    proof {
        assert(views(pieces@).skip(0) =~= views(pieces@));
        assert(views(parts@) + mapped_parts(views(pieces@).skip(0)) =~= mapped_parts(
            views(pieces@),
        ));
    }
    while i < n
        invariant
            n == pieces@.len(),
            i <= n,
            views(parts@) + mapped_parts(views(pieces@).skip(i as int)) == mapped_parts(
                views(pieces@),
            ),
        decreases n - i,
    {
        let ghost rest = views(pieces@).skip(i as int);
        proof {
            assert(rest.drop_first() =~= views(pieces@).skip(i + 1));
            assert(rest[0] == pieces@[i as int]@);
        }
        let t = trim_chars(pieces[i].as_slice());
        if t.len() > 0 {
            let ghost old_views = views(parts@);
            let ts = string_from_chars(t.as_slice());
            let mapped = map_part_to_parser_token(ts.as_str());
            let m = chars_of(mapped.as_str());
            parts.push(m);
            proof {
                assert(views(parts@) =~= old_views.push(m@));
                assert(views(parts@) + mapped_parts(views(pieces@).skip(i + 1)) =~= old_views
                    + mapped_parts(rest));
            }
        }
        i = i + 1;
    }
    proof {
        assert(views(pieces@).skip(n as int) =~= Seq::<Seq<char>>::empty());
        assert(views(parts@) + Seq::<Seq<char>>::empty() =~= views(parts@));
    }
    parts
}

/// Joins parts with `+`.
fn join_parts(parts: &Vec<Vec<char>>) -> (s: Vec<char>)
    ensures
        s@ == join_plus(views(parts@)),
{
    let n = parts.len();
    let mut out: Vec<char> = Vec::new();
    if n == 0 {
        return out;
    }
    let mut i: usize = n - 1;
    let last = &parts[i];
    let m = last.len();
    let mut k: usize = 0;
    while k < m
        invariant
            m == last@.len(),
            k <= m,
            out@ == last@.take(k as int),
        decreases m - k,
    {
        out.push(last[k]);
        proof {
            assert(last@.take(k + 1) =~= last@.take(k as int).push(last@[k as int]));
        }
        k = k + 1;
    }
    proof {
        assert(last@.take(m as int) =~= last@);
        assert(views(parts@).skip(i as int) =~= seq![last@]);
    }
    while i > 0
        invariant
            n == parts@.len(),
            i < n,
            out@ == join_plus(views(parts@).skip(i as int)),
        decreases i,
    {
        i = i - 1;
        let p = &parts[i];
        let mut next: Vec<char> = Vec::new();
        let pm = p.len();
        let mut k: usize = 0;
        while k < pm
            invariant
                pm == p@.len(),
                k <= pm,
                next@ == p@.take(k as int),
            decreases pm - k,
        {
            next.push(p[k]);
            proof {
                assert(p@.take(k + 1) =~= p@.take(k as int).push(p@[k as int]));
            }
            k = k + 1;
        }
        next.push('+');
        let om = out.len();
        let mut k: usize = 0;
        let ghost base = next@;
        while k < om
            invariant
                om == out@.len(),
                k <= om,
                next@ == base + out@.take(k as int),
            decreases om - k,
        {
            next.push(out[k]);
            proof {
                assert(out@.take(k + 1) =~= out@.take(k as int).push(out@[k as int]));
            }
            k = k + 1;
        }
        proof {
            let tail = views(parts@).skip(i as int);
            assert(tail.drop_first() =~= views(parts@).skip(i + 1));
            assert(tail[0] == p@);
            assert(p@.take(pm as int) =~= p@);
            assert(out@.take(om as int) =~= out@);
            assert(next@ =~= p@ + seq!['+'] + out@);
        }
        out = next;
    }
    proof {
        assert(views(parts@).skip(0) =~= views(parts@));
    }
    out
}

/// Best-effort normalizer for hotkey strings stored in the settings:
/// `Some` with a form the shortcut parser accepts, or `None` when no such
/// form can be made.
pub fn normalize_recording_hotkey(raw: &str) -> (r: Option<String>)
    ensures
        match spec_normalized_hotkey(raw@) {
            Some(n) => r matches Some(s) && s@ == n,
            None => r is None,
        },
{
    let cs = chars_of(raw);
    let t = trim_chars(cs.as_slice());
    if t.len() == 0 {
        return None;
    }
    let s = string_from_chars(t.as_slice());
    if shortcut_is_valid(s.as_str()) {
        return Some(s);
    }
    let pieces = split_on_plus(t.as_slice());
    let parts = map_pieces(&pieces);
    if parts.len() == 0 {
        return None;
    }
    let joined = join_parts(&parts);
    let candidate = string_from_chars(joined.as_slice());
    if shortcut_is_valid(candidate.as_str()) {
        Some(candidate)
    } else {
        None
    }
}

/// Normalization only ever hands out a shortcut that the parser accepts,
/// and a shortcut that the parser accepts as it stands is kept as it is.
pub proof fn lemma_normalized_hotkey_parses(raw: Seq<char>)
    ensures
        spec_normalized_hotkey(raw) matches Some(n) ==> hotkey_parses(n),
        trim_seq(raw) == raw && raw.len() > 0 && hotkey_parses(raw) ==> spec_normalized_hotkey(raw)
            == Some(raw),
{
}

/// A non-empty sequence whose first and last characters are not white
/// space: trimming leaves it as it is.
pub open spec fn tight(s: Seq<char>) -> bool {
    s.len() > 0 && !is_unicode_whitespace(s[0]) && !is_unicode_whitespace(s.last())
}

proof fn lemma_trim_start_first(s: Seq<char>)
    ensures
        trim_start_seq(s).len() > 0 ==> !is_unicode_whitespace(trim_start_seq(s)[0]),
        trim_start_seq(s).len() <= s.len(),
        trim_start_seq(s).len() > 0 ==> trim_start_seq(s).last() == s.last(),
    decreases s.len(),
{
    if s.len() > 0 && is_unicode_whitespace(s[0]) {
        lemma_trim_start_first(s.skip(1));
    }
}

proof fn lemma_trim_end_ends(s: Seq<char>)
    ensures
        trim_end_seq(s).len() > 0 ==> !is_unicode_whitespace(trim_end_seq(s).last()),
        trim_end_seq(s).len() > 0 ==> trim_end_seq(s)[0] == s[0],
    decreases s.len(),
{
    if s.len() > 0 && is_unicode_whitespace(s.last()) {
        lemma_trim_end_ends(s.drop_last());
    }
}

/// What trimming gives is either empty or tight.
proof fn lemma_trim_tight(s: Seq<char>)
    ensures
        trim_seq(s).len() == 0 || tight(trim_seq(s)),
{
    let a = trim_start_seq(s);
    lemma_trim_start_first(s);
    lemma_trim_end_ends(a);
}

/// A tight sequence is its own trim.
proof fn lemma_tight_trims_to_itself(s: Seq<char>)
    requires
        tight(s),
    ensures
        trim_seq(s) == s,
{
}

/// Trimming twice is trimming once.
pub proof fn lemma_trim_idempotent(s: Seq<char>)
    ensures
        trim_seq(trim_seq(s)) == trim_seq(s),
{
    lemma_trim_tight(s);
    if trim_seq(s).len() == 0 {
        assert(trim_start_seq(trim_seq(s)) == trim_seq(s));
    } else {
        lemma_tight_trims_to_itself(trim_seq(s));
    }
}

proof fn lemma_token_tight(t: Seq<char>)
    requires
        tight(t),
    ensures
        tight(spec_parser_token(t)),
{
    reveal_strlit("`");
    reveal_strlit("-");
    reveal_strlit("=");
    reveal_strlit("[");
    reveal_strlit("]");
    reveal_strlit("\\");
    reveal_strlit(";");
    reveal_strlit("'");
    reveal_strlit(",");
    reveal_strlit(".");
    reveal_strlit("/");
    reveal_strlit("Backquote");
    reveal_strlit("Minus");
    reveal_strlit("Equal");
    reveal_strlit("BracketLeft");
    reveal_strlit("BracketRight");
    reveal_strlit("Backslash");
    reveal_strlit("Semicolon");
    reveal_strlit("Quote");
    reveal_strlit("Comma");
    reveal_strlit("Period");
    reveal_strlit("Slash");
}

/// Every part that the rewriting keeps is tight.
proof fn lemma_mapped_parts_tight(pieces: Seq<Seq<char>>)
    ensures
        forall|i: int| 0 <= i < mapped_parts(pieces).len() ==> tight(#[trigger] mapped_parts(pieces)[i]),
    decreases pieces.len(),
{
    if pieces.len() > 0 {
        lemma_mapped_parts_tight(pieces.drop_first());
        let t = trim_seq(pieces[0]);
        lemma_trim_tight(pieces[0]);
        if t.len() > 0 {
            lemma_token_tight(t);
            let rest = mapped_parts(pieces.drop_first());
            assert forall|i: int| 0 <= i < mapped_parts(pieces).len() implies tight(
                #[trigger] mapped_parts(pieces)[i],
            ) by {
                if i > 0 {
                    assert(mapped_parts(pieces)[i] == rest[i - 1]);
                }
            }
        }
    }
}

/// Tight parts join into a tight text.
proof fn lemma_join_tight(parts: Seq<Seq<char>>)
    requires
        parts.len() > 0,
        forall|i: int| 0 <= i < parts.len() ==> tight(#[trigger] parts[i]),
    ensures
        tight(join_plus(parts)),
        join_plus(parts)[0] == parts[0][0],
        join_plus(parts).last() == parts.last().last(),
    decreases parts.len(),
{
    assert(tight(parts[0]));
    if parts.len() > 1 {
        let rest = parts.drop_first();
        assert forall|i: int| 0 <= i < rest.len() implies tight(#[trigger] rest[i]) by {
            assert(rest[i] == parts[i + 1]);
        }
        lemma_join_tight(rest);
        assert(rest.last() == parts.last());
        let j = parts[0] + seq!['+'] + join_plus(rest);
        assert(j[0] == parts[0][0]);
        assert(j.last() == join_plus(rest).last());
    }
}

/// Normalizing twice is normalizing once: what normalization hands out is
/// trimmed already and accepted by the parser, so it is kept as it is.
pub proof fn lemma_normalize_idempotent(raw: Seq<char>)
    ensures
        spec_normalized_hotkey(raw) matches Some(n) ==> spec_normalized_hotkey(n) == Some(n),
{
    let s = trim_seq(raw);
    lemma_trim_idempotent(raw);
    if s.len() > 0 && !hotkey_parses(s) {
        let parts = mapped_parts(split_plus(s));
        if parts.len() > 0 && hotkey_parses(join_plus(parts)) {
            lemma_mapped_parts_tight(split_plus(s));
            lemma_join_tight(parts);
            lemma_tight_trims_to_itself(join_plus(parts));
        }
    }
}

} // verus!
