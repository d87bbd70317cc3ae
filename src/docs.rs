//! Documentation pages drawn from the `@title:`, `@signature:` and
//! `@description:` tags of Halcyon sources.

use vstd::prelude::*;

use crate::config::texts;
use crate::text::{concat, opt_view};
use vstd::string::StrSliceExecFns;

verus! {

/// The error of `regex::Regex::new`, carried through opaque.
#[verifier::external_type_specification]
#[verifier::external_body]
pub struct ExRegexError(regex::Error);

/// Whether `regex::Regex::new` accepts a pattern.
pub uninterp spec fn pattern_accepted(pattern: Seq<char>) -> bool;

/// What `regex::Regex::captures_iter` finds in `text` for the pattern
/// `pattern`: for each match, in order, its first group, where it took part.
pub uninterp spec fn group_captures(pattern: Seq<char>, text: Seq<char>) -> Seq<Option<Seq<char>>>;

/// Relies on `regex::Regex::new`, which refuses an ill-formed pattern, and on
/// `regex::Regex::captures_iter` with `regex::Captures::get(1)`: the first
/// group of each successive non-overlapping match.
#[verifier::external_body]
fn first_groups(pattern: &str, text: &str) -> (r: Result<Vec<Option<String>>, regex::Error>)
    ensures
        r is Ok <==> pattern_accepted(pattern@),
        r matches Ok(v) ==> v@.map_values(|c: Option<String>| opt_view(c)) == group_captures(
            pattern@,
            text@,
        ),
{
    let re = regex::Regex::new(pattern)?;
    Ok(re.captures_iter(text).map(|c| c.get(1).map(|m| m.as_str().to_string())).collect())
}

/// Whether `c` has the Unicode White_Space property, the test of
/// `char::is_whitespace`.
pub open spec fn is_white_space(c: char) -> bool {
    let v = c as u32;
    ||| 0x9 <= v <= 0xD
    ||| v == 0x20
    ||| v == 0x85
    ||| v == 0xA0
    ||| v == 0x1680
    ||| 0x2000 <= v <= 0x200A
    ||| v == 0x2028
    ||| v == 0x2029
    ||| v == 0x202F
    ||| v == 0x205F
    ||| v == 0x3000
}

/// A string without its leading white space.
pub open spec fn trim_start(s: Seq<char>) -> Seq<char>
    decreases s.len(),
{
    if s.len() > 0 && is_white_space(s[0]) {
        trim_start(s.drop_first())
    } else {
        s
    }
}

/// A string without its trailing white space.
pub open spec fn trim_end(s: Seq<char>) -> Seq<char>
    decreases s.len(),
{
    if s.len() > 0 && is_white_space(s.last()) {
        trim_end(s.drop_last())
    } else {
        s
    }
}

/// A string without leading and trailing white space.
pub open spec fn trimmed(s: Seq<char>) -> Seq<char> {
    trim_end(trim_start(s))
}

/// Relies on `str::trim`, which removes leading and trailing characters
/// with the White_Space property.
#[verifier::external_body]
fn trim_text(s: &str) -> (r: String)
    ensures
        r@ == trimmed(s@),
{
    s.trim().to_string()
}

/// A string with every `--` removed, scanning from the left.
pub open spec fn without_dashes(s: Seq<char>) -> Seq<char>
    decreases s.len(),
{
    if s.len() < 2 {
        s
    } else if s[0] == '-' && s[1] == '-' {
        without_dashes(s.subrange(2, s.len() as int))
    } else {
        seq![s[0]] + without_dashes(s.drop_first())
    }
}

/// `s` with every `--` removed, scanning from the left.
pub fn remove_dashes(s: &str) -> (r: String)
    ensures
        r@ == without_dashes(s@),
{
    let n = s.unicode_len();
    let mut r = String::new();
    let mut i: usize = 0;
    proof {
        assert(s@.subrange(0, n as int) =~= s@);
    }
    while i < n
        invariant
            n == s@.len(),
            i <= n,
            r@ + without_dashes(s@.subrange(i as int, n as int)) == without_dashes(s@),
        decreases n - i,
    {
        let ghost rest = s@.subrange(i as int, n as int);
        if i + 1 < n && s.get_char(i) == '-' && s.get_char(i + 1) == '-' {
            proof {
                assert(rest.subrange(2, rest.len() as int) =~= s@.subrange(i + 2, n as int));
            }
            i = i + 2;
        } else {
            let c = s.substring_char(i, i + 1);
            proof {
                assert(c@ =~= seq![rest[0]]);
                assert(rest.drop_first() =~= s@.subrange(i + 1, n as int));
                if rest.len() < 2 {
                    assert(s@.subrange(i + 1, n as int).len() == 0);
                    assert(rest =~= seq![rest[0]] + s@.subrange(i + 1, n as int));
                }
            }
            r.append(c);
            proof {
                assert(r@ + without_dashes(s@.subrange(i + 1, n as int)) =~= without_dashes(s@));
            }
            i = i + 1;
        }
    }
    proof {
        assert(s@.subrange(n as int, n as int).len() == 0);
        assert(r@ + without_dashes(s@.subrange(n as int, n as int)) =~= r@);
    }
    r
}

/// The values of the captures that took part, trimmed, in order.
pub open spec fn tag_values(caps: Seq<Option<Seq<char>>>) -> Seq<Seq<char>>
    decreases caps.len(),
{
    if caps.len() == 0 {
        Seq::empty()
    } else {
        let rest = tag_values(caps.drop_last());
        match caps.last() {
            Some(c) => rest.push(trimmed(c)),
            None => rest,
        }
    }
}

/// One entry of a documentation page.
pub open spec fn doc_entry(title: Seq<char>, signature: Seq<char>, description: Seq<char>) -> Seq<
    char,
> {
    "## "@ + title + ": "@ + signature + "  \n"@ + description + "  \n---\n"@
}

/// The `i`-th value, or `fallback` past the end.
pub open spec fn nth_or(v: Seq<Seq<char>>, i: int, fallback: Seq<char>) -> Seq<char> {
    if i < v.len() {
        v[i]
    } else {
        fallback
    }
}

/// The first `n` entries of a page: entry `i` pairs the `i`-th title,
/// signature and description, each replaced by a placeholder where missing.
pub open spec fn doc_entries(
    titles: Seq<Seq<char>>,
    signatures: Seq<Seq<char>>,
    descriptions: Seq<Seq<char>>,
    n: nat,
) -> Seq<char>
    decreases n,
{
    if n == 0 {
        Seq::empty()
    } else {
        let i = n - 1;
        doc_entries(titles, signatures, descriptions, (n - 1) as nat) + doc_entry(
            nth_or(titles, i, "No title provided"@),
            nth_or(signatures, i, "No signature provided"@),
            nth_or(descriptions, i, "No description provided"@),
        )
    }
}

/// The largest of three numbers.
pub open spec fn max3(a: nat, b: nat, c: nat) -> nat {
    if a >= b && a >= c {
        a
    } else if b >= c {
        b
    } else {
        c
    }
}

/// A documentation page: as many entries as the longest of the three lists.
pub open spec fn doc_page(
    titles: Seq<Seq<char>>,
    signatures: Seq<Seq<char>>,
    descriptions: Seq<Seq<char>>,
) -> Seq<char> {
    doc_entries(
        titles,
        signatures,
        descriptions,
        max3(titles.len(), signatures.len(), descriptions.len()),
    )
}

fn nth_or_text(v: &Vec<String>, i: usize, fallback: &str) -> (r: String)
    ensures
        r@ == nth_or(texts(v@), i as int, fallback@),
{
    if i < v.len() {
        v[i].clone()
    } else {
        fallback.to_owned()
    }
}

/// Renders a documentation page from the titles, signatures and
/// descriptions found in a source, in order.
pub fn render_docs(titles: &Vec<String>, signatures: &Vec<String>, descriptions: &Vec<String>) -> (r:
    String)
    ensures
        r@ == doc_page(texts(titles@), texts(signatures@), texts(descriptions@)),
{
    let mut n = titles.len();
    if signatures.len() > n {
        n = signatures.len();
    }
    if descriptions.len() > n {
        n = descriptions.len();
    }
    let ghost t = texts(titles@);
    let ghost s = texts(signatures@);
    let ghost d = texts(descriptions@);
    let mut page = String::new();
    let mut i: usize = 0;
    while i < n
        invariant
            n == max3(t.len(), s.len(), d.len()),
            t == texts(titles@),
            s == texts(signatures@),
            d == texts(descriptions@),
            i <= n,
            page@ == doc_entries(t, s, d, i as nat),
        decreases n - i,
    {
        let title = nth_or_text(titles, i, "No title provided");
        let signature = nth_or_text(signatures, i, "No signature provided");
        let description = nth_or_text(descriptions, i, "No description provided");
        page.append("## ");
        page.append(title.as_str());
        page.append(": ");
        page.append(signature.as_str());
        page.append("  \n");
        page.append(description.as_str());
        page.append("  \n---\n");
        proof {
            assert(page@ =~= doc_entries(t, s, d, i as nat) + doc_entry(
                nth_or(t, i as int, "No title provided"@),
                nth_or(s, i as int, "No signature provided"@),
                nth_or(d, i as int, "No description provided"@),
            ));
        }
        i += 1;
    }
    page
}

/// The trimmed values of the captures that took part, in order.
fn present_values(caps: &Vec<Option<String>>) -> (r: Vec<String>)
    ensures
        texts(r@) == tag_values(caps@.map_values(|c: Option<String>| opt_view(c))),
{
    let ghost all = caps@.map_values(|c: Option<String>| opt_view(c));
    let mut r: Vec<String> = Vec::new();
    let n = caps.len();
    let mut i: usize = 0;
    while i < n
        invariant
            n == caps.len(),
            all == caps@.map_values(|c: Option<String>| opt_view(c)),
            i <= n,
            texts(r@) == tag_values(all.take(i as int)),
        decreases n - i,
    {
        proof {
            assert(all.take(i + 1).drop_last() =~= all.take(i as int));
            assert(all.take(i + 1).last() == opt_view(caps@[i as int]));
        }
        match &caps[i] {
            Some(c) => {
                r.push(trim_text(c.as_str()));
                proof {
                    assert(texts(r@) =~= tag_values(all.take(i + 1)));
                }
            },
            None => {},
        }
        i += 1;
    }
    proof {
        assert(all.take(n as int) =~= all);
    }
    r
}

/// The pattern that finds titles.
pub open spec fn title_pattern() -> Seq<char> {
    "@title:\\s*([^\\r\\n]*)"@
}

/// The pattern that finds signatures.
pub open spec fn signature_pattern() -> Seq<char> {
    "@signature:\\s*([^\\r\\n]*)"@
}

/// The pattern that finds descriptions.
pub open spec fn description_pattern() -> Seq<char> {
    "@description:\\s*([^@]*)"@
}

/// The documentation page of one source: its titles, signatures and
/// descriptions, trimmed, with `--` taken out of descriptions. `None` where
/// the regular-expression engine refuses a pattern.
pub fn document_source(source: &str) -> (r: Option<String>)
    ensures
        r is Some <==> pattern_accepted(title_pattern()) && pattern_accepted(signature_pattern())
            && pattern_accepted(description_pattern()),
        r matches Some(page) ==> page@ == doc_page(
            tag_values(group_captures(title_pattern(), source@)),
            tag_values(group_captures(signature_pattern(), source@)),
            tag_values(group_captures(description_pattern(), source@)).map_values(
                |d: Seq<char>| without_dashes(d),
            ),
        ),
{
    let titles = match first_groups("@title:\\s*([^\\r\\n]*)", source) {
        Ok(v) => present_values(&v),
        Err(_) => return None,
    };
    let signatures = match first_groups("@signature:\\s*([^\\r\\n]*)", source) {
        Ok(v) => present_values(&v),
        Err(_) => return None,
    };
    let found = match first_groups("@description:\\s*([^@]*)", source) {
        Ok(v) => present_values(&v),
        Err(_) => return None,
    };
    let mut descriptions: Vec<String> = Vec::new();
    let n = found.len();
    let mut i: usize = 0;
    while i < n
        invariant
            n == found.len(),
            i <= n,
            descriptions.len() == i,
            texts(descriptions@) == texts(found@).take(i as int).map_values(
                |d: Seq<char>| without_dashes(d),
            ),
        decreases n - i,
    {
        let d = remove_dashes(found[i].as_str());
        let ghost dv = d@;
        descriptions.push(d);
        proof {
            let want = texts(found@).take(i + 1).map_values(|d: Seq<char>| without_dashes(d));
            assert(want[i as int] == without_dashes(found@[i as int]@));
            assert(texts(descriptions@)[i as int] == dv);
            assert(forall|j: int|
                0 <= j < i ==> want[j] == texts(found@).take(i as int).map_values(
                    |d: Seq<char>| without_dashes(d),
                )[j]);
            assert(texts(descriptions@) =~= texts(found@).take(i + 1).map_values(
                |d: Seq<char>| without_dashes(d),
            ));
        }
        i += 1;
    }
    proof {
        assert(texts(found@).take(n as int) =~= texts(found@));
    }
    Some(render_docs(&titles, &signatures, &descriptions))
}

} // verus!
