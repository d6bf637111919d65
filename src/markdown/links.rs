use vstd::prelude::*;
use crate::text::to_chars;

verus! {

/// Position of the first `c` at or after `from`, or the length of `s` if there is none.
pub open spec fn next_index(s: Seq<char>, c: char, from: int) -> int
    decreases s.len() - from,
{
    if from >= s.len() {
        s.len() as int
    } else if s[from] == c {
        from
    } else {
        next_index(s, c, from + 1)
    }
}

/// Where a link `[text](url)` that opens at position `i` closes its text and its URL,
/// if one opens there: the text and the URL are not empty, the text holds no `]`
/// and the URL no `)`.
pub open spec fn link_end(s: Seq<char>, i: int) -> Option<(int, int)> {
    if 0 <= i < s.len() && s[i] == '[' {
        let j = next_index(s, ']', i + 1);
        if j >= i + 2 && j + 1 < s.len() && s[j + 1] == '(' {
            let k = next_index(s, ')', j + 2);
            if j + 3 <= k < s.len() {
                Some((j, k))
            } else {
                None
            }
        } else {
            None
        }
    } else {
        None
    }
}

/// The links found from position `pos` on, each as its opening `[`, its `]` and its
/// closing `)`; after a link the search goes on past its end.
pub open spec fn link_spans(s: Seq<char>, pos: int) -> Seq<(int, int, int)>
    decreases s.len() - pos,
{
    if pos < 0 || pos >= s.len() {
        Seq::empty()
    } else {
        match link_end(s, pos) {
            Some((j, k)) => seq![(pos, j, k)] + link_spans(s, k + 1),
            None => link_spans(s, pos + 1),
        }
    }
}

/// A link as its whole text, its text and its URL.
pub type LinkModel = (Seq<char>, Seq<char>, Seq<char>);

pub open spec fn span_link(s: Seq<char>, span: (int, int, int)) -> LinkModel {
    (s.subrange(span.0, span.2 + 1), s.subrange(span.0 + 1, span.1), s.subrange(span.1 + 2, span.2))
}

/// The links of a text, in order.
pub open spec fn links_of(s: Seq<char>) -> Seq<LinkModel> {
    link_spans(s, 0).map_values(|span: (int, int, int)| span_link(s, span))
}

/// Strict order of texts: by the first character that differs, a text coming before
/// any longer text that it starts.
pub open spec fn text_lt(a: Seq<char>, b: Seq<char>) -> bool
    decreases a.len(),
{
    if a.len() == 0 {
        b.len() > 0
    } else if b.len() == 0 {
        false
    } else if a[0] != b[0] {
        (a[0] as int) < (b[0] as int)
    } else {
        text_lt(a.drop_first(), b.drop_first())
    }
}

pub open spec fn strictly_sorted(s: Seq<Seq<char>>) -> bool {
    forall|i: int, j: int| 0 <= i < j < s.len() ==> text_lt(#[trigger] s[i], #[trigger] s[j])
}

/// The URLs of the links, each once, in increasing order.
pub open spec fn is_unique_urls(unique: Seq<Seq<char>>, links: Seq<LinkModel>) -> bool {
    &&& strictly_sorted(unique)
    &&& forall|u: Seq<char>|
        #[trigger] unique.contains(u) <==> exists|i: int| 0 <= i < links.len() && #[trigger] links[i].2 == u
}

pub proof fn lemma_text_lt_irreflexive(a: Seq<char>)
    ensures
        !text_lt(a, a),
    decreases a.len(),
{
    if a.len() > 0 {
        lemma_text_lt_irreflexive(a.drop_first());
    }
}

pub proof fn lemma_text_lt_total(a: Seq<char>, b: Seq<char>)
    ensures
        a != b ==> text_lt(a, b) || text_lt(b, a),
        !(text_lt(a, b) && text_lt(b, a)),
    decreases a.len(),
{
    if a.len() > 0 && b.len() > 0 && a[0] == b[0] {
        lemma_text_lt_total(a.drop_first(), b.drop_first());
        if a != b {
            assert(a =~= seq![a[0]] + a.drop_first());
            assert(b =~= seq![b[0]] + b.drop_first());
        }
    } else if a.len() == 0 && b.len() == 0 {
        assert(a =~= b);
    } else if a.len() > 0 && b.len() > 0 {
        assert((a[0] as int) != (b[0] as int));
    }
}

pub proof fn lemma_text_lt_transitive(a: Seq<char>, b: Seq<char>, c: Seq<char>)
    requires
        text_lt(a, b),
        text_lt(b, c),
    ensures
        text_lt(a, c),
    decreases a.len(),
{
    if a.len() > 0 && b.len() > 0 && c.len() > 0 && a[0] == b[0] && b[0] == c[0] {
        lemma_text_lt_transitive(a.drop_first(), b.drop_first(), c.drop_first());
    }
}

/// Whether `a` comes before `b`.
fn text_less(a: &Vec<char>, b: &Vec<char>) -> (r: bool)
    ensures
        r == text_lt(a@, b@),
{
    let mut i: usize = 0;
    assert(a@.skip(0) =~= a@ && b@.skip(0) =~= b@);
    while i < a.len() && i < b.len()
        invariant
            i <= a@.len(),
            i <= b@.len(),
            text_lt(a@, b@) == text_lt(a@.skip(i as int), b@.skip(i as int)),
        decreases a@.len() - i,
    {
        if a[i] != b[i] {
            assert(a@.skip(i as int)[0] == a@[i as int]);
            assert(b@.skip(i as int)[0] == b@[i as int]);
            return a[i] < b[i];
        }
        assert(a@.skip(i as int).drop_first() =~= a@.skip(i + 1));
        assert(b@.skip(i as int).drop_first() =~= b@.skip(i + 1));
        i = i + 1;
    }
    i < b.len()
}

/// A link of the text: the whole link, its text and its URL.
#[derive(Clone, Debug, PartialEq)]
pub struct Link {
    pub link: String,
    pub text: String,
    pub url: String,
}

impl View for Link {
    type V = LinkModel;

    open spec fn view(&self) -> LinkModel {
        (self.link@, self.text@, self.url@)
    }
}

pub open spec fn link_models(links: Seq<Link>) -> Seq<LinkModel> {
    links.map_values(|l: Link| l@)
}

pub open spec fn string_models(strings: Seq<String>) -> Seq<Seq<char>> {
    strings.map_values(|s: String| s@)
}

/// The links of a text, and the URLs that they point to.
pub struct Links {
    links: Vec<Link>,
    unique: Vec<String>,
}

impl View for Links {
    type V = (Seq<LinkModel>, Seq<Seq<char>>);

    closed spec fn view(&self) -> (Seq<LinkModel>, Seq<Seq<char>>) {
        (link_models(self.links@), string_models(self.unique@))
    }
}

/// Position of the first `c` at or after `from`, or the length if there is none.
fn next_char(chars: &Vec<char>, c: char, from: usize) -> (r: usize)
    requires
        from <= chars@.len(),
    ensures
        r == next_index(chars@, c, from as int),
        from <= r <= chars@.len(),
{
    let mut i = from;
    while i < chars.len()
        invariant
            from <= i <= chars@.len(),
            next_index(chars@, c, from as int) == next_index(chars@, c, i as int),
        decreases chars@.len() - i,
    {
        if chars[i] == c {
            return i;
        }
        i = i + 1;
    }
    i
}

/// Where the link that opens at `i` closes its text and its URL, if one opens there.
fn link_end_at(chars: &Vec<char>, i: usize) -> (r: Option<(usize, usize)>)
    requires
        i < chars@.len(),
    ensures
        r matches Some((j, k)) ==> link_end(chars@, i as int) == Some((j as int, k as int)),
        r matches Some((j, k)) ==> i + 2 <= j && j + 3 <= k && k < chars@.len(),
        r is None ==> link_end(chars@, i as int) is None,
{
    let n = chars.len();
    if chars[i] != '[' {
        return None;
    }
    let j = next_char(chars, ']', i + 1);
    if !(j > i + 1 && j < n && n - j > 1 && chars[j + 1] == '(') {
        return None;
    }
    let k = next_char(chars, ')', j + 2);
    if k - j >= 3 && k < n {
        Some((j, k))
    } else {
        None
    }
}

impl Links {
    /// The URLs, as the strings that hold them.
    pub closed spec fn url_strings(&self) -> Seq<String> {
        self.unique@
    }

    pub open spec fn wf(&self) -> bool {
        is_unique_urls(self@.1, self@.0)
    }

    pub fn create(markdown: String) -> (r: Links)
        ensures
            r@.0 == links_of(markdown@),
            r.wf(),
    {
        let links = Links::parse_links(markdown);
        let unique = Links::unique_links(&links);
        Links { links, unique }
    }

    /// The links, in the order of the text.
    pub fn all_links(&self) -> (r: Vec<Link>)
        ensures
            link_models(r@) == self@.0,
    {
        let mut r: Vec<Link> = Vec::new();
        let mut i: usize = 0;
        while i < self.links.len()
            invariant
                i <= self.links@.len(),
                link_models(r@) =~= link_models(self.links@).subrange(0, i as int),
            decreases self.links@.len() - i,
        {
            let l = &self.links[i];
            r.push(Link { link: l.link.clone(), text: l.text.clone(), url: l.url.clone() });
            assert(link_models(self.links@).subrange(0, i + 1) =~= link_models(self.links@).subrange(0, i as int).push(self.links@[i as int]@));
            i = i + 1;
        }
        assert(link_models(self.links@).subrange(0, i as int) =~= link_models(self.links@));
        r
    }

    /// Position of a URL among the URLs, counting from zero.
    pub fn index_of(&self, url: &String) -> (r: Option<usize>)
        ensures
            r matches Some(i) ==> i < self@.1.len() <= usize::MAX && self@.1[i as int] == url@,
            r is None ==> !self@.1.contains(url@),
    {
        let _n = self.unique.len();
        let mut i: usize = 0;
        while i < self.unique.len()
            invariant
                i <= self.unique@.len(),
                forall|k: int| 0 <= k < i ==> string_models(self.unique@)[k] != url@,
            decreases self.unique@.len() - i,
        {
            if self.unique[i] == *url {
                return Some(i);
            }
            i = i + 1;
        }
        None
    }

    /// Each URL handed to `transform` with its position counting from one.
    pub fn map_unique<F: Fn(&String, usize) -> String>(&self, transform: F) -> (r: Vec<String>)
        requires
            forall|i: int, u: &String| 0 <= i < self@.1.len() ==> #[trigger] transform.requires((u, (i + 1) as usize)),
        ensures
            r@.len() == self@.1.len(),
            forall|i: int| 0 <= i < r@.len() ==> #[trigger] transform.ensures((&self.url_strings()[i], (i + 1) as usize), r@[i]),
            forall|i: int| 0 <= i < r@.len() ==> #[trigger] self.url_strings()[i]@ == self@.1[i],
    {
        let mut r: Vec<String> = Vec::new();
        let mut i: usize = 0;
        while i < self.unique.len()
            invariant
                i <= self.unique@.len(),
                r@.len() == i,
                forall|i: int, u: &String| 0 <= i < self@.1.len() ==> #[trigger] transform.requires((u, (i + 1) as usize)),
                forall|k: int| 0 <= k < i ==> #[trigger] transform.ensures((&self.unique@[k], (k + 1) as usize), r@[k]),
            decreases self.unique@.len() - i,
        {
            let s = transform(&self.unique[i], i + 1);
            r.push(s);
            i = i + 1;
        }
        r
    }

    fn parse_links(markdown: String) -> (r: Vec<Link>)
        ensures
            link_models(r@) == links_of(markdown@),
    {
        let chars = to_chars(markdown.as_str());
        let ghost s = markdown@;
        let ghost spans = link_spans(s, 0);
        let n = chars.len();
        let mut links: Vec<Link> = Vec::new();
        let mut pos: usize = 0;
        let ghost mut found: Seq<(int, int, int)> = Seq::empty();
        while pos < n
            invariant
                chars@ == s,
                markdown@ == s,
                n == s.len(),
                pos <= n,
                found + link_spans(s, pos as int) == spans,
                link_models(links@) =~= found.map_values(|span: (int, int, int)| span_link(s, span)),
            decreases n - pos,
        {
            match link_end_at(&chars, pos) {
                Some((j, k)) => {
                    let text = markdown.as_str();
                    let ghost before = links@;
                    links.push(
                        Link {
                            link: String::from_str(text.substring_char(pos, k + 1)),
                            text: String::from_str(text.substring_char(pos + 1, j)),
                            url: String::from_str(text.substring_char(j + 2, k)),
                        },
                    );
                    proof {
                        let span = (pos as int, j as int, k as int);
                        assert(found.push(span) + link_spans(s, k + 1) =~= found + link_spans(s, pos as int));
                        assert(link_models(links@) =~= link_models(before).push(span_link(s, span)));
                        assert(found.push(span).map_values(|span: (int, int, int)| span_link(s, span))
                            =~= found.map_values(|span: (int, int, int)| span_link(s, span)).push(span_link(s, span)));
                        found = found.push(span);
                    }
                    pos = k + 1;
                },
                None => {
                    pos = pos + 1;
                },
            }
        }
        proof {
            assert(link_spans(s, pos as int) == Seq::<(int, int, int)>::empty());
            assert(found =~= spans);
        }
        links
    }

    fn unique_links(links: &Vec<Link>) -> (r: Vec<String>)
        ensures
            is_unique_urls(string_models(r@), link_models(links@)),
    {
        let ghost models = link_models(links@);
        let mut unique: Vec<String> = Vec::new();
        let mut sorted: Vec<Vec<char>> = Vec::new();
        let mut i: usize = 0;
        proof {
            assert(char_models(sorted@) =~= string_models(unique@));
        }
        while i < links.len()
            invariant
                models == link_models(links@),
                i <= links@.len(),
                char_models(sorted@) == string_models(unique@),
                strictly_sorted(string_models(unique@)),
                forall|u: Seq<char>|
                    #[trigger] string_models(unique@).contains(u) <==> exists|t: int|
                        0 <= t < i && #[trigger] models[t].2 == u,
            decreases links@.len() - i,
        {
            let url = to_chars(links[i].url.as_str());
            let ghost u = url@;
            let ghost before = string_models(unique@);
            let p = find_slot(&sorted, &url);
            let present = p < sorted.len() && !text_less(&url, &sorted[p]);
            if present {
                proof {
                    lemma_text_lt_total(before[p as int], u);
                    assert(before[p as int] == u);
                    assert(before.contains(u));
                }
            } else {
                proof {
                    if p < before.len() {
                        lemma_text_lt_total(before[p as int], u);
                    }
                    lemma_insert_sorted(before, p as int, u);
                }
                let ghost old_unique = unique@;
                let ghost old_sorted = sorted@;
                let url_string = links[i].url.clone();
                unique.insert(p, url_string);
                sorted.insert(p, url);
                proof {
                    old_unique.insert_ensures(p as int, url_string);
                    old_sorted.insert_ensures(p as int, url);
                    before.insert_ensures(p as int, u);
                    assert(string_models(unique@) =~= before.insert(p as int, u));
                    assert(char_models(sorted@) =~= before.insert(p as int, u));
                }
            }
            proof {
                let after = string_models(unique@);
                assert(models[i as int].2 == u);
                assert forall|v: Seq<char>| #[trigger] after.contains(v) <==> exists|t: int|
                    0 <= t < i + 1 && #[trigger] models[t].2 == v by {
                    if exists|t: int| 0 <= t < i + 1 && #[trigger] models[t].2 == v {
                        let t = choose|t: int| 0 <= t < i + 1 && #[trigger] models[t].2 == v;
                        if t < i {
                            assert(before.contains(v));
                        }
                    }
                    if before.contains(v) {
                        let t = choose|t: int| 0 <= t < i && #[trigger] models[t].2 == v;
                        assert(0 <= t < i + 1 && models[t].2 == v);
                    }
                }
            }
            i = i + 1;
        }
        unique
    }
}

pub open spec fn char_models(v: Seq<Vec<char>>) -> Seq<Seq<char>> {
    v.map_values(|c: Vec<char>| c@)
}

/// The first position whose text does not come before `url`.
fn find_slot(sorted: &Vec<Vec<char>>, url: &Vec<char>) -> (p: usize)
    ensures
        p <= sorted@.len(),
        forall|k: int| 0 <= k < p ==> text_lt(#[trigger] char_models(sorted@)[k], url@),
        p < sorted@.len() ==> !text_lt(char_models(sorted@)[p as int], url@),
{
    let mut p: usize = 0;
    while p < sorted.len()
        invariant
            p <= sorted@.len(),
            forall|k: int| 0 <= k < p ==> text_lt(#[trigger] char_models(sorted@)[k], url@),
        decreases sorted@.len() - p,
    {
        if !text_less(&sorted[p], url) {
            return p;
        }
        assert(char_models(sorted@)[p as int] == sorted@[p as int]@);
        p = p + 1;
    }
    p
}

/// Putting `u` in its place keeps a sorted list sorted, and adds `u` to what it holds.
proof fn lemma_insert_sorted(before: Seq<Seq<char>>, p: int, u: Seq<char>)
    requires
        strictly_sorted(before),
        0 <= p <= before.len(),
        forall|k: int| 0 <= k < p ==> text_lt(#[trigger] before[k], u),
        p < before.len() ==> text_lt(u, before[p]),
    ensures
        strictly_sorted(before.insert(p, u)),
        forall|v: Seq<char>| #[trigger] before.insert(p, u).contains(v) <==> (before.contains(v) || v == u),
{
    let after = before.insert(p, u);
    before.insert_ensures(p, u);
    assert forall|a: int, b: int| 0 <= a < b < after.len() implies text_lt(
        #[trigger] after[a],
        #[trigger] after[b],
    ) by {
        if b < p {
            assert(text_lt(before[a], before[b]));
        } else if a < p && b == p {
        } else if a < p && b > p {
            assert(after[b] == before[b - 1]);
            assert(text_lt(before[a], before[b - 1]));
        } else if a == p {
            assert(after[b] == before[b - 1]);
            if b - 1 > p {
                lemma_text_lt_transitive(u, before[p], before[b - 1]);
            }
        } else {
            assert(after[a] == before[a - 1]);
            assert(after[b] == before[b - 1]);
            assert(text_lt(before[a - 1], before[b - 1]));
        }
    }
    assert forall|v: Seq<char>| #[trigger] after.contains(v) <==> (before.contains(v) || v == u) by {
        if after.contains(v) {
            let k = choose|k: int| 0 <= k < after.len() && after[k] == v;
            if k < p {
                assert(before[k] == v);
            } else if k > p {
                assert(before[k - 1] == v);
            }
        }
        if before.contains(v) {
            let k = choose|k: int| 0 <= k < before.len() && before[k] == v;
            if k < p {
                assert(after[k] == v);
            } else {
                assert(after[k + 1] == v);
            }
        }
        if v == u {
            assert(after[p] == v);
        }
    }
}

} // verus!
