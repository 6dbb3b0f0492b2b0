//! The cookie jar: an ordered list of cookies, read from and written to the
//! `name=value; name=value` form of a `cookie` header.

use vstd::prelude::*;
use crate::outside::string_of;
use crate::text::{
    chars_of, copy_range, find_char, first_index, is_space, is_trimmed, leading_spaces,
    lemma_first_index, lemma_first_index_is_first, lemma_leading_spaces, lemma_space_counts,
    lemma_trim, trailing_spaces, trim, trim_range, trim_start,
};

verus! {

/// One cookie.
#[derive(Debug, Clone)]
pub struct CookieData {
    pub name: String,
    pub value: String,
    pub domain: String,
    pub path: String,
}

/// A cookie as the contracts see it.
pub struct CookieView {
    pub name: Seq<char>,
    pub value: Seq<char>,
    pub domain: Seq<char>,
    pub path: Seq<char>,
}

impl View for CookieData {
    type V = CookieView;

    open spec fn view(&self) -> CookieView {
        CookieView { name: self.name@, value: self.value@, domain: self.domain@, path: self.path@ }
    }
}

/// The cookies of one session, in order. No cookie stands twice in a jar
/// that `new` or `from_cookie_string` made; of a jar put together by hand,
/// `has_distinct_keys` tells.
#[derive(Debug)]
pub struct CookieStore {
    pub cookies: Vec<CookieData>,
}

/// The views of `cookies`, in order.
pub open spec fn jar_view(cookies: Seq<CookieData>) -> Seq<CookieView> {
    cookies.map_values(|c: CookieData| c@)
}

impl View for CookieStore {
    type V = Seq<CookieView>;

    open spec fn view(&self) -> Seq<CookieView> {
        jar_view(self.cookies@)
    }
}

/// The path that a cookie read from a header gets.
pub open spec fn default_path() -> Seq<char> {
    "/"@
}

/// What one segment of a header holds: with an `=` in it, the cookie whose
/// name is what stands before the first `=` and whose value is what
/// follows it, each trimmed; without one, nothing.
pub open spec fn parse_pair(segment: Seq<char>, domain: Seq<char>) -> Option<CookieView> {
    let pair = trim(segment);
    let eq = first_index(pair, '=');
    if eq < pair.len() {
        Some(
            CookieView {
                name: trim(pair.take(eq as int)),
                value: trim(pair.skip(eq as int + 1)),
                domain,
                path: default_path(),
            },
        )
    } else {
        None
    }
}

/// The cookies of a segment: one or none.
pub open spec fn segment_cookies(segment: Seq<char>, domain: Seq<char>) -> Seq<CookieView> {
    match parse_pair(segment, domain) {
        Some(c) => seq![c],
        None => Seq::empty(),
    }
}

/// The cookies that the segments of a header hold: the segments are the
/// pieces between the `;`, and each gives its cookie in turn.
pub open spec fn read_segments(header: Seq<char>, domain: Seq<char>) -> Seq<CookieView>
    decreases header.len(),
{
    let cut = first_index(header, ';');
    let head = segment_cookies(header.take(cut as int), domain);
    if cut < header.len() {
        head + read_segments(header.skip(cut as int + 1), domain)
    } else {
        head
    }
}

/// A cookie as it stands in a header: `name=value`.
pub open spec fn pair_text(c: CookieView) -> Seq<char> {
    c.name + seq!['='] + c.value
}

/// The header that a jar gives: its cookies as `name=value`, in order,
/// with `; ` between two of them.
pub open spec fn format_header(jar: Seq<CookieView>) -> Seq<char>
    decreases jar.len(),
{
    if jar.len() == 0 {
        Seq::empty()
    } else if jar.len() == 1 {
        pair_text(jar.last())
    } else {
        format_header(jar.drop_last()) + seq![';', ' '] + pair_text(jar.last())
    }
}

/// The value of the first cookie of `jar` named `name`; empty where none
/// has that name.
pub open spec fn first_value(jar: Seq<CookieView>, name: Seq<char>) -> Seq<char>
    decreases jar.len(),
{
    if jar.len() == 0 {
        Seq::empty()
    } else if jar.first().name == name {
        jar.first().value
    } else {
        first_value(jar.drop_first(), name)
    }
}

/// The value of the last cookie of `jar` named `name`; empty where none
/// has that name.
pub open spec fn last_value(jar: Seq<CookieView>, name: Seq<char>) -> Seq<char>
    decreases jar.len(),
{
    if jar.len() == 0 {
        Seq::empty()
    } else if jar.last().name == name {
        jar.last().value
    } else {
        last_value(jar.drop_last(), name)
    }
}

/// Whether two cookies are the same cookie: a cookie is known by its
/// name, its domain and its path.
pub open spec fn same_key(a: CookieView, b: CookieView) -> bool {
    a.name == b.name && a.domain == b.domain && a.path == b.path
}

/// Whether no cookie stands twice in `jar`.
pub open spec fn distinct_keys(jar: Seq<CookieView>) -> bool {
    forall|i: int, j: int| 0 <= i < j < jar.len() ==> !same_key(jar[i], jar[j])
}

/// Whether no name stands twice in `jar`.
pub open spec fn distinct_names(jar: Seq<CookieView>) -> bool {
    forall|i: int, j: int| 0 <= i < j < jar.len() ==> jar[i].name != jar[j].name
}

/// Whether `jar` holds the cookie that `c` is.
pub open spec fn has_key(jar: Seq<CookieView>, c: CookieView) -> bool {
    exists|i: int| 0 <= i < jar.len() && same_key(#[trigger] jar[i], c)
}

/// `cookies` with the first of each cookie kept, in order: a cookie that
/// stands again later is left out there.
pub open spec fn first_of_each_key(cookies: Seq<CookieView>) -> Seq<CookieView>
    decreases cookies.len(),
{
    if cookies.len() == 0 {
        cookies
    } else {
        let kept = first_of_each_key(cookies.drop_last());
        if has_key(kept, cookies.last()) {
            kept
        } else {
            kept.push(cookies.last())
        }
    }
}

/// The jar that a header holds: the cookies of its segments, in order. No
/// cookie stands twice in a jar, so of the segments that name the same
/// cookie the first one counts.
pub open spec fn parse_header(header: Seq<char>, domain: Seq<char>) -> Seq<CookieView> {
    first_of_each_key(read_segments(header, domain))
}

impl CookieStore {
    /// An empty jar.
    pub fn new() -> (store: CookieStore)
        ensures
            store@ == Seq::<CookieView>::empty(),
            distinct_keys(store@),
    {
        let store = CookieStore { cookies: Vec::new() };
        assert(store@ =~= Seq::<CookieView>::empty());
        store
    }

    /// Reads a jar from a header of the form `name1=value1; name2=value2`.
    /// Segments without an `=` are passed over; every cookie gets `domain`
    /// and the path `/`. Where a name stands in several segments, the
    /// first of them gives the cookie and the others are passed over, so
    /// that no cookie stands twice in the jar.
    pub fn from_cookie_string(cookie_str: &str, domain: &str) -> (store: CookieStore)
        ensures
            store@ == parse_header(cookie_str@, domain@),
            distinct_keys(store@),
            forall|i: int|
                0 <= i < store@.len() ==> {
                    let c = #[trigger] store@[i];
                    c.domain == domain@ && c.path == default_path() && header_safe(c)
                },
    {
        let text = chars_of(cookie_str);
        let n = text.len();
        let mut cookies: Vec<CookieData> = Vec::new();
        let mut start: usize = 0;
        let ghost mut seen: Seq<CookieView> = Seq::empty();
        assert(text@.skip(0) =~= text@);
        assert(jar_view(cookies@) =~= Seq::<CookieView>::empty());
        loop
            invariant_except_break
                start <= n,
                read_segments(text@, domain@) == seen + read_segments(
                    text@.skip(start as int),
                    domain@,
                ),
            invariant
                n == text.len(),
                text@ == cookie_str@,
                jar_view(cookies@) == first_of_each_key(seen),
            ensures
                read_segments(text@, domain@) == seen,
            decreases n - start,
        {
            let ghost rest = text@.skip(start as int);
            let ghost before = seen;
            assert(rest =~= text@.subrange(start as int, n as int));
            let end = find_char(&text, start, n, ';');
            assert(rest.take(end - start) =~= text@.subrange(start as int, end as int));
            let (a, b) = trim_range(&text, start, end);
            let ghost pair = text@.subrange(a as int, b as int);
            let eq = find_char(&text, a, b, '=');
            if eq < b {
                assert(pair.take(eq - a) =~= text@.subrange(a as int, eq as int));
                assert(pair.skip(eq - a + 1) =~= text@.subrange(eq + 1, b as int));
                let (na, nb) = trim_range(&text, a, eq);
                let (va, vb) = trim_range(&text, eq + 1, b);
                let name = string_of(&copy_range(&text, na, nb));
                let value = string_of(&copy_range(&text, va, vb));
                let cookie = CookieData {
                    name,
                    value,
                    domain: domain.to_owned(),
                    path: "/".to_owned(),
                };
                assert(Some(cookie@) == parse_pair(rest.take(end - start), domain@));
                proof {
                    seen = seen.push(cookie@);
                    assert(seen.drop_last() =~= before);
                    assert(seen =~= before + seq![cookie@]);
                }
                if !holds_key(&cookies, &cookie) {
                    let ghost kept = jar_view(cookies@);
                    cookies.push(cookie);
                    assert(jar_view(cookies@) =~= kept.push(cookie@));
                }
            }
            assert(seen =~= before + segment_cookies(rest.take(end - start), domain@));
            if end == n {
                assert(read_segments(text@, domain@) =~= seen);
                break ;
            }
            assert(rest.skip(end - start + 1) =~= text@.skip(end + 1));
            start = end + 1;
            assert(read_segments(text@, domain@) =~= seen + read_segments(
                text@.skip(start as int),
                domain@,
            ));
        }
        proof {
            law_parsed_is_safe(cookie_str@, domain@);
        }
        CookieStore { cookies }
    }

    /// Whether no cookie stands twice in the jar.
    pub fn has_distinct_keys(&self) -> (distinct: bool)
        ensures
            distinct == distinct_keys(self@),
    {
        let n = self.cookies.len();
        let mut j: usize = 0;
        while j < n
            invariant
                j <= n == self.cookies.len(),
                forall|a: int, b: int| 0 <= a < b < j ==> !same_key(self@[a], self@[b]),
            decreases n - j,
        {
            let mut i: usize = 0;
            while i < j
                invariant
                    i <= j < n == self.cookies.len(),
                    forall|a: int| 0 <= a < i ==> !same_key(self@[a], self@[j as int]),
                decreases j - i,
            {
                let a = &self.cookies[i];
                let b = &self.cookies[j];
                assert(self@[i as int] == a@ && self@[j as int] == b@);
                if a.name == b.name && a.domain == b.domain && a.path == b.path {
                    assert(same_key(self@[i as int], self@[j as int]));
                    return false;
                }
                i = i + 1;
            }
            j = j + 1;
        }
        true
    }

    /// The value of the first cookie named `name`, empty where there is
    /// none.
    pub fn first_value(&self, name: &str) -> (value: String)
        ensures
            value@ == first_value(self@, name@),
    {
        let key = name.to_owned();
        let n = self.cookies.len();
        let mut i: usize = 0;
        assert(self@.skip(0) =~= self@);
        while i < n
            invariant
                i <= n == self.cookies.len(),
                key@ == name@,
                first_value(self@, name@) == first_value(self@.skip(i as int), name@),
            decreases n - i,
        {
            let ghost rest = self@.skip(i as int);
            assert(rest.first() == self.cookies@[i as int]@);
            if self.cookies[i].name == key {
                return self.cookies[i].value.clone();
            }
            assert(rest.drop_first() =~= self@.skip(i + 1));
            i = i + 1;
        }
        String::new()
    }

    /// The value of the last cookie named `name`, empty where there is
    /// none.
    pub fn last_value(&self, name: &str) -> (value: String)
        ensures
            value@ == last_value(self@, name@),
    {
        let key = name.to_owned();
        let mut i: usize = self.cookies.len();
        assert(self@.take(i as int) =~= self@);
        while i > 0
            invariant
                i <= self.cookies.len(),
                key@ == name@,
                last_value(self@, name@) == last_value(self@.take(i as int), name@),
            decreases i,
        {
            let ghost rest = self@.take(i as int);
            assert(rest.last() == self.cookies@[i - 1]@);
            if self.cookies[i - 1].name == key {
                return self.cookies[i - 1].value.clone();
            }
            assert(rest.drop_last() =~= self@.take(i - 1));
            i = i - 1;
        }
        String::new()
    }

    /// Writes the jar as a header: `name=value` pairs in jar order, joined
    /// by `; `.
    pub fn to_cookie_string(&self) -> (header: String)
        ensures
            header@ == format_header(self@),
    {
        let mut out: Vec<char> = Vec::new();
        let mut i: usize = 0;
        assert(self@.take(0) =~= Seq::<CookieView>::empty());
        while i < self.cookies.len()
            invariant
                i <= self.cookies.len(),
                out@ == format_header(self@.take(i as int)),
            decreases self.cookies.len() - i,
        {
            let ghost done = self@.take(i as int);
            let ghost next = self@.take(i + 1);
            assert(next.drop_last() =~= done);
            assert(next.last() == self.cookies@[i as int]@);
            if i > 0 {
                out.push(';');
                out.push(' ');
            }
            let ghost mid = out@;
            let cookie = &self.cookies[i];
            let name = chars_of(cookie.name.as_str());
            let value = chars_of(cookie.value.as_str());
            append(&mut out, &name);
            out.push('=');
            append(&mut out, &value);
            assert(out@ =~= mid + pair_text(next.last()));
            i = i + 1;
        }
        assert(self@.take(i as int) =~= self@);
        string_of(&out)
    }
}

/// Whether a cookie can stand in a header and be read back: its name and
/// value are trimmed and hold no `;`, and its name holds no `=`.
pub open spec fn header_safe(c: CookieView) -> bool {
    &&& is_trimmed(c.name)
    &&& is_trimmed(c.value)
    &&& !c.name.contains(';')
    &&& !c.name.contains('=')
    &&& !c.value.contains(';')
}

/// `c` as a header gives it back: with `domain` and the default path.
pub open spec fn rehomed(c: CookieView, domain: Seq<char>) -> CookieView {
    CookieView { name: c.name, value: c.value, domain, path: default_path() }
}

/// The jar with every cookie moved to `domain` and the default path.
pub open spec fn normalized(jar: Seq<CookieView>, domain: Seq<char>) -> Seq<CookieView> {
    jar.map_values(|c: CookieView| rehomed(c, domain))
}

/// A header without a `;` is one segment.
proof fn lemma_single_segment(header: Seq<char>, domain: Seq<char>)
    requires
        !header.contains(';'),
    ensures
        read_segments(header, domain) == segment_cookies(header, domain),
{
    lemma_first_index_is_first(header, ';');
    assert(header.take(header.len() as int) =~= header);
}

/// The cookies of the segments of two headers joined by a `;` are those of
/// the first followed by those of the second.
pub proof fn law_segments_compose(first: Seq<char>, second: Seq<char>, domain: Seq<char>)
    ensures
        read_segments(first + seq![';'] + second, domain) == read_segments(first, domain)
            + read_segments(second, domain),
    decreases first.len(),
{
    let joined = first + seq![';'] + second;
    let cut = first_index(first, ';');
    lemma_first_index_is_first(first, ';');
    assert forall|i: int| 0 <= i < cut implies #[trigger] joined[i] != ';' by {
        assert(joined[i] == first[i]);
    }
    if cut < first.len() {
        assert(joined[cut as int] == first[cut as int]);
    } else {
        assert(joined[cut as int] == ';');
    }
    lemma_first_index(joined, ';', cut as int);
    assert(joined.take(cut as int) =~= first.take(cut as int));
    if cut < first.len() {
        let rest = first.skip(cut as int + 1);
        assert(joined.skip(cut as int + 1) =~= rest + seq![';'] + second);
        law_segments_compose(rest, second, domain);
        assert(read_segments(joined, domain) =~= read_segments(first, domain) + read_segments(
            second,
            domain,
        ));
    } else {
        assert(joined.skip(cut as int + 1) =~= second);
    }
}

/// A segment without an `=` gives no cookie, wherever it stands.
proof fn lemma_malformed_segment(
    before: Seq<char>,
    segment: Seq<char>,
    after: Seq<char>,
    domain: Seq<char>,
)
    requires
        !segment.contains('='),
        !segment.contains(';'),
    ensures
        read_segments(segment, domain) == Seq::<CookieView>::empty(),
        read_segments(segment + seq![';'] + after, domain) == read_segments(after, domain),
        read_segments(before + seq![';'] + segment, domain) == read_segments(before, domain),
        read_segments(before + seq![';'] + segment + seq![';'] + after, domain) == read_segments(
            before + seq![';'] + after,
            domain,
        ),
{
    lemma_single_segment(segment, domain);
    let pair = trim(segment);
    lemma_trim(segment);
    lemma_first_index_is_first(pair, '=');
    assert(read_segments(segment, domain) =~= Seq::<CookieView>::empty());
    law_segments_compose(segment, after, domain);
    law_segments_compose(before, segment, domain);
    law_segments_compose(before + seq![';'] + segment, after, domain);
    law_segments_compose(before, after, domain);
    assert(read_segments(segment + seq![';'] + after, domain) =~= read_segments(after, domain));
    assert(read_segments(before + seq![';'] + segment, domain) =~= read_segments(before, domain));
}

/// A segment without an `=` adds no cookie: the header reads the same with
/// the segment and without it, wherever the segment stands.
pub proof fn law_malformed_segment_dropped(
    before: Seq<char>,
    segment: Seq<char>,
    after: Seq<char>,
    domain: Seq<char>,
)
    requires
        !segment.contains('='),
        !segment.contains(';'),
    ensures
        parse_header(segment, domain) == Seq::<CookieView>::empty(),
        parse_header(segment + seq![';'] + after, domain) == parse_header(after, domain),
        parse_header(before + seq![';'] + segment, domain) == parse_header(before, domain),
        parse_header(before + seq![';'] + segment + seq![';'] + after, domain) == parse_header(
            before + seq![';'] + after,
            domain,
        ),
{
    lemma_malformed_segment(before, segment, after, domain);
}

/// The cookie of a segment, where it has one, is safe to write back and
/// carries `domain` and the default path.
proof fn lemma_parsed_pair(segment: Seq<char>, domain: Seq<char>)
    requires
        !segment.contains(';'),
    ensures
        parse_pair(segment, domain) matches Some(c) ==> header_safe(c) && c.domain == domain
            && c.path == default_path(),
        parse_pair(segment, domain) is Some <==> segment.contains('='),
{
    let pair = trim(segment);
    lemma_trim(segment);
    let eq = first_index(pair, '=');
    lemma_first_index_is_first(pair, '=');
    lemma_trim_keeps_eq(segment);
    if eq < pair.len() {
        let left = pair.take(eq as int);
        let right = pair.skip(eq as int + 1);
        lemma_trim(left);
        lemma_trim(right);
        assert forall|c: char| left.contains(c) implies pair.contains(c) && c != '=' by {
            let i = choose|i: int| 0 <= i < left.len() && left[i] == c;
            assert(pair[i] == c);
        }
        assert forall|c: char| right.contains(c) implies pair.contains(c) by {
            let i = choose|i: int| 0 <= i < right.len() && right[i] == c;
            assert(pair[i + eq + 1] == c);
        }
    }
}

/// Trimming keeps every `=`: whitespace is no `=`.
proof fn lemma_trim_keeps_eq(s: Seq<char>)
    ensures
        trim(s).contains('=') <==> s.contains('='),
{
    lemma_trim(s);
    lemma_space_counts(s);
    let t = trim_start(s);
    lemma_space_counts(t);
    if s.contains('=') {
        let i = choose|i: int| 0 <= i < s.len() && s[i] == '=';
        let a = leading_spaces(s) as int;
        assert(!is_space('='));
        assert(i >= a);
        assert(t[i - a] == '=');
        assert(i - a < t.len() - trailing_spaces(t));
        assert(trim(s)[i - a] == '=');
    }
}

/// Every cookie of a segment is safe to write back, carries the domain
/// that was given and the default path.
proof fn lemma_segments_are_safe(header: Seq<char>, domain: Seq<char>)
    ensures
        forall|i: int|
            0 <= i < read_segments(header, domain).len() ==> {
                let c = #[trigger] read_segments(header, domain)[i];
                header_safe(c) && c.domain == domain && c.path == default_path()
            },
    decreases header.len(),
{
    let cut = first_index(header, ';');
    lemma_first_index_is_first(header, ';');
    let segment = header.take(cut as int);
    assert forall|c: char| segment.contains(c) implies c != ';' by {
        let i = choose|i: int| 0 <= i < segment.len() && segment[i] == c;
        assert(header[i] == c);
    }
    lemma_parsed_pair(segment, domain);
    let head = segment_cookies(segment, domain);
    let all = read_segments(header, domain);
    if cut < header.len() {
        let rest = read_segments(header.skip(cut as int + 1), domain);
        lemma_segments_are_safe(header.skip(cut as int + 1), domain);
        assert forall|i: int| 0 <= i < all.len() implies {
            let c = #[trigger] all[i];
            header_safe(c) && c.domain == domain && c.path == default_path()
        } by {
            if i >= head.len() {
                assert(all[i] == rest[i - head.len()]);
            } else {
                assert(all[i] == head[i]);
            }
        }
    }
}

/// Keeping the first of each cookie leaves a jar in which no cookie stands
/// twice, made of cookies that were there before; cookies of which none
/// stands twice are all kept.
pub proof fn lemma_first_of_each_key(cookies: Seq<CookieView>)
    ensures
        distinct_keys(first_of_each_key(cookies)),
        first_of_each_key(cookies).len() <= cookies.len(),
        forall|i: int|
            0 <= i < first_of_each_key(cookies).len() ==> cookies.contains(
                #[trigger] first_of_each_key(cookies)[i],
            ),
        distinct_keys(cookies) ==> first_of_each_key(cookies) == cookies,
    decreases cookies.len(),
{
    if cookies.len() > 0 {
        let init = cookies.drop_last();
        let last = cookies.last();
        let kept = first_of_each_key(init);
        let all = first_of_each_key(cookies);
        lemma_first_of_each_key(init);
        assert forall|i: int| 0 <= i < all.len() implies cookies.contains(#[trigger] all[i]) by {
            if i < kept.len() {
                assert(init.contains(kept[i]));
                let k = choose|k: int| 0 <= k < init.len() && init[k] == kept[i];
                assert(cookies[k] == all[i]);
            } else {
                assert(cookies[cookies.len() - 1] == all[i]);
            }
        }
        if distinct_keys(cookies) {
            assert(distinct_keys(init)) by {
                assert forall|i: int, j: int| 0 <= i < j < init.len() implies !same_key(
                    init[i],
                    init[j],
                ) by {
                    assert(!same_key(cookies[i], cookies[j]));
                }
            }
            assert(!has_key(kept, last)) by {
                assert forall|i: int| 0 <= i < kept.len() implies !same_key(
                    #[trigger] kept[i],
                    last,
                ) by {
                    assert(!same_key(cookies[i], cookies[cookies.len() - 1]));
                }
            }
            assert(all =~= cookies);
        }
    }
}

/// Every cookie read from a header is safe to write back, carries the
/// domain that was given and the default path; no cookie stands twice in
/// what was read, and no name does.
pub proof fn law_parsed_is_safe(header: Seq<char>, domain: Seq<char>)
    ensures
        forall|i: int|
            0 <= i < parse_header(header, domain).len() ==> {
                let c = #[trigger] parse_header(header, domain)[i];
                header_safe(c) && c.domain == domain && c.path == default_path()
            },
        distinct_keys(parse_header(header, domain)),
        distinct_names(parse_header(header, domain)),
{
    let segments = read_segments(header, domain);
    let jar = parse_header(header, domain);
    lemma_segments_are_safe(header, domain);
    lemma_first_of_each_key(segments);
    assert forall|i: int| 0 <= i < jar.len() implies {
        let c = #[trigger] jar[i];
        header_safe(c) && c.domain == domain && c.path == default_path()
    } by {
        assert(segments.contains(jar[i]));
        let k = choose|k: int| 0 <= k < segments.len() && segments[k] == jar[i];
        assert(segments[k] == jar[i]);
    }
    assert forall|i: int, j: int| 0 <= i < j < jar.len() implies jar[i].name != jar[j].name by {
        assert(!same_key(jar[i], jar[j]));
    }
}

/// Where no name stands twice among the segments of a header, the jar
/// holds one cookie for each segment with an `=`, in order.
pub proof fn law_one_cookie_per_segment(header: Seq<char>, domain: Seq<char>)
    requires
        distinct_names(read_segments(header, domain)),
    ensures
        parse_header(header, domain) == read_segments(header, domain),
{
    let segments = read_segments(header, domain);
    assert(distinct_keys(segments)) by {
        assert forall|i: int, j: int| 0 <= i < j < segments.len() implies !same_key(
            segments[i],
            segments[j],
        ) by {
            assert(segments[i].name != segments[j].name);
        }
    }
    lemma_first_of_each_key(segments);
}

/// A safe cookie written as `name=value`, with or without a space before
/// it, reads back as itself.
proof fn lemma_pair_round_trip(c: CookieView, domain: Seq<char>)
    requires
        header_safe(c),
    ensures
        read_segments(pair_text(c), domain) == seq![rehomed(c, domain)],
        read_segments(seq![' '] + pair_text(c), domain) == seq![rehomed(c, domain)],
{
    let pair = pair_text(c);
    let spaced = seq![' '] + pair;
    let n = c.name.len() as int;
    assert(pair[n] == '=');
    assert(!is_space('=') && !is_space(';') && is_space(' '));
    assert(is_trimmed(pair)) by {
        if c.name.len() > 0 {
            assert(pair.first() == c.name.first());
        }
        if c.value.len() > 0 {
            assert(pair.last() == c.value.last());
        }
    }
    lemma_trim(pair);
    assert(trim(spaced) == pair) by {
        assert(spaced[1] == pair[0]);
        lemma_leading_spaces(spaced, 1);
        assert(trim_start(spaced) =~= pair);
    }
    assert forall|i: int| 0 <= i < n implies #[trigger] pair[i] != '=' by {
        assert(pair[i] == c.name[i]);
        assert(c.name.contains(c.name[i]));
    }
    lemma_first_index(pair, '=', n);
    assert(pair.take(n) =~= c.name);
    assert(pair.skip(n + 1) =~= c.value);
    lemma_trim(c.name);
    lemma_trim(c.value);
    assert(parse_pair(pair, domain) == Some(rehomed(c, domain)));
    assert(parse_pair(spaced, domain) == Some(rehomed(c, domain)));
    assert forall|ch: char| pair.contains(ch) implies ch != ';' by {
        let i = choose|i: int| 0 <= i < pair.len() && pair[i] == ch;
        if i < n {
            assert(c.name.contains(c.name[i]));
        } else if i > n {
            assert(c.value.contains(c.value[i - n - 1]));
        }
    }
    assert forall|ch: char| spaced.contains(ch) implies ch != ';' by {
        let i = choose|i: int| 0 <= i < spaced.len() && spaced[i] == ch;
        if i > 0 {
            assert(pair.contains(pair[i - 1]));
        }
    }
    lemma_single_segment(pair, domain);
    lemma_single_segment(spaced, domain);
}

/// Writing a jar as a header and reading the header back gives the jar
/// again, moved to `domain` and the default path, if and only if every
/// cookie of the jar is safe to write and no name stands twice in the jar.
/// A header tells no domains apart: of two cookies of one name it keeps
/// the first.
pub proof fn law_round_trip(jar: Seq<CookieView>, domain: Seq<char>)
    ensures
        (distinct_names(jar) && forall|i: int| 0 <= i < jar.len() ==> header_safe(#[trigger] jar[i]))
            <==> parse_header(format_header(jar), domain) == normalized(jar, domain),
{
    let read = parse_header(format_header(jar), domain);
    let moved = normalized(jar, domain);
    if distinct_names(jar) && forall|i: int| 0 <= i < jar.len() ==> header_safe(#[trigger] jar[i]) {
        lemma_round_trip(jar, domain);
        assert(distinct_names(moved)) by {
            assert forall|i: int, j: int| 0 <= i < j < moved.len() implies moved[i].name
                != moved[j].name by {
                assert(jar[i].name != jar[j].name);
            }
        }
        law_one_cookie_per_segment(format_header(jar), domain);
    }
    if read == moved {
        law_parsed_is_safe(format_header(jar), domain);
        assert forall|i: int| 0 <= i < jar.len() implies header_safe(#[trigger] jar[i]) by {
            assert(read[i] == rehomed(jar[i], domain));
            assert(header_safe(read[i]));
        }
        assert forall|i: int, j: int| 0 <= i < j < jar.len() implies jar[i].name
            != jar[j].name by {
            assert(read[i] == rehomed(jar[i], domain));
            assert(read[j] == rehomed(jar[j], domain));
            assert(read[i].name != read[j].name);
        }
    }
}

/// What was read from a header is written and read again without loss:
/// reading the header that a read jar gives yields that jar, moved to the
/// domain of the second reading.
pub proof fn law_reread(header: Seq<char>, first_domain: Seq<char>, second_domain: Seq<char>)
    ensures
        parse_header(format_header(parse_header(header, first_domain)), second_domain)
            == normalized(parse_header(header, first_domain), second_domain),
{
    law_parsed_is_safe(header, first_domain);
    law_round_trip(parse_header(header, first_domain), second_domain);
}

/// A jar of safe cookies survives the way through a header.
proof fn lemma_round_trip(jar: Seq<CookieView>, domain: Seq<char>)
    requires
        forall|i: int| 0 <= i < jar.len() ==> header_safe(#[trigger] jar[i]),
    ensures
        read_segments(format_header(jar), domain) == normalized(jar, domain),
    decreases jar.len(),
{
    if jar.len() == 0 {
        lemma_single_segment(Seq::<char>::empty(), domain);
        lemma_first_index_is_first(trim(Seq::<char>::empty()), '=');
        lemma_trim(Seq::<char>::empty());
        assert(read_segments(format_header(jar), domain) =~= normalized(jar, domain));
    } else {
        let last = jar.last();
        lemma_pair_round_trip(last, domain);
        if jar.len() == 1 {
            assert(normalized(jar, domain) =~= seq![rehomed(last, domain)]);
        } else {
            let init = jar.drop_last();
            assert forall|i: int| 0 <= i < init.len() implies header_safe(#[trigger] init[i]) by {
                assert(init[i] == jar[i]);
            }
            lemma_round_trip(init, domain);
            let head = format_header(init);
            let tail = seq![' '] + pair_text(last);
            assert(format_header(jar) =~= head + seq![';'] + tail);
            law_segments_compose(head, tail, domain);
            assert(normalized(jar, domain) =~= normalized(init, domain) + seq![
                rehomed(last, domain),
            ]);
        }
    }
}

/// Whether `cookies` holds the cookie that `c` is.
fn holds_key(cookies: &Vec<CookieData>, c: &CookieData) -> (held: bool)
    ensures
        held == has_key(jar_view(cookies@), c@),
{
    let mut i: usize = 0;
    while i < cookies.len()
        invariant
            i <= cookies.len(),
            forall|k: int| 0 <= k < i ==> !same_key(#[trigger] jar_view(cookies@)[k], c@),
        decreases cookies.len() - i,
    {
        let other = &cookies[i];
        assert(jar_view(cookies@)[i as int] == other@);
        if other.name == c.name && other.domain == c.domain && other.path == c.path {
            return true;
        }
        i = i + 1;
    }
    false
}

/// Appends the characters of `tail` to `out`.
fn append(out: &mut Vec<char>, tail: &Vec<char>)
    ensures
        final(out)@ == old(out)@ + tail@,
{
    let mut k: usize = 0;
    while k < tail.len()
        invariant
            k <= tail.len(),
            out@ == old(out)@ + tail@.take(k as int),
        decreases tail.len() - k,
    {
        out.push(tail[k]);
        k = k + 1;
        assert(out@ =~= old(out)@ + tail@.take(k as int));
    }
    assert(tail@.take(k as int) =~= tail@);
}

} // verus!
