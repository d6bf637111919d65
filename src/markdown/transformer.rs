use vstd::prelude::*;
use crate::markdown::links::{
    is_unique_urls, lemma_text_lt_irreflexive, links_of, strictly_sorted, LinkModel, Links,
};
use crate::text::{decimal, natural_to_string, replace_all, replace_text};

verus! {

/// The mark of the footnote numbered `k`: `[^anchor<k>]`.
pub open spec fn anchor(k: nat) -> Seq<char> {
    "[^anchor"@ + decimal(k) + "]"@
}

/// Position of a URL among the URLs.
pub open spec fn url_index(unique: Seq<Seq<char>>, url: Seq<char>) -> int {
    choose|i: int| 0 <= i < unique.len() && unique[i] == url
}

/// What a link becomes: its text, a space and the mark of the footnote of its URL.
pub open spec fn replacement(link: LinkModel, unique: Seq<Seq<char>>) -> Seq<char> {
    link.1 + " "@ + anchor((url_index(unique, link.2) + 1) as nat)
}

/// The text once each of its first `n` links, in order, has been replaced everywhere.
pub open spec fn replaced(md: Seq<char>, links: Seq<LinkModel>, unique: Seq<Seq<char>>, n: nat) -> Seq<char>
    decreases n,
{
    if n == 0 {
        md
    } else {
        replace_all(
            replaced(md, links, unique, (n - 1) as nat),
            links[n - 1].0,
            replacement(links[n - 1], unique),
        )
    }
}

/// The footnote numbered `k`: its mark, a colon, a space and the URL.
pub open spec fn footnote(url: Seq<char>, k: nat) -> Seq<char> {
    anchor(k) + ": "@ + url
}

/// The first `n` footnotes, each on a line of its own.
pub open spec fn footnotes(unique: Seq<Seq<char>>, n: nat) -> Seq<char>
    decreases n,
{
    if n == 0 {
        Seq::empty()
    } else {
        footnotes(unique, (n - 1) as nat) + "\n"@ + footnote(unique[n - 1], n)
    }
}

/// A text with each link replaced by its text and a footnote mark, followed by the
/// footnotes of its URLs, numbered in their order.
pub open spec fn transformed(md: Seq<char>, unique: Seq<Seq<char>>) -> Seq<char> {
    let links = links_of(md);
    replaced(md, links, unique, links.len()) + footnotes(unique, unique.len())
}

proof fn lemma_url_index(unique: Seq<Seq<char>>, k: int)
    requires
        strictly_sorted(unique),
        0 <= k < unique.len(),
    ensures
        url_index(unique, unique[k]) == k,
{
    let i = url_index(unique, unique[k]);
    assert(0 <= k < unique.len() && unique[k] == unique[k]);
    if i < k {
        assert(crate::markdown::links::text_lt(unique[i], unique[k]));
        lemma_text_lt_irreflexive(unique[k]);
    } else if i > k {
        assert(crate::markdown::links::text_lt(unique[k], unique[i]));
        lemma_text_lt_irreflexive(unique[k]);
    }
}

/// The footnote numbered `index` for a URL.
fn footnote_of(url: &String, index: usize) -> (r: String)
    ensures
        r@ == footnote(url@, index as nat),
{
    let mut note = String::from_str("[^anchor");
    let number = natural_to_string(index as u64);
    note.append(number.as_str());
    note.append("]");
    note.append(": ");
    note.append(url.as_str());
    assert(note@ =~= footnote(url@, index as nat));
    note
}

/// Turns the links of a markdown text into footnotes.
pub struct Transformer {
    markdown: String,
    links: Links,
}

impl View for Transformer {
    type V = (Seq<char>, Seq<Seq<char>>);

    /// The text, and the URLs of its links, each once, in increasing order.
    closed spec fn view(&self) -> (Seq<char>, Seq<Seq<char>>) {
        (self.markdown@, self.links@.1)
    }
}

impl Transformer {
    #[verifier::type_invariant]
    spec fn links_match(&self) -> bool {
        &&& self.links.wf()
        &&& self.links@.0 == links_of(self.markdown@)
    }

    pub fn new(markdown: &str) -> (r: Self)
        ensures
            r@.0 == markdown@,
            is_unique_urls(r@.1, links_of(markdown@)),
    {
        let links = Links::create(String::from_str(markdown));
        Self { markdown: String::from_str(markdown), links }
    }

    pub fn transform(&self) -> (r: String)
        ensures
            r@ == transformed(self@.0, self@.1),
    {
        proof {
            use_type_invariant(self);
        }
        let ghost md = self.markdown@;
        let ghost unique = self.links@.1;
        let ghost models = links_of(md);
        let links = self.links.all_links();
        let mut text = self.markdown.clone();
        let mut i: usize = 0;
        while i < links.len()
            invariant
                i <= links@.len(),
                crate::markdown::links::link_models(links@) == models,
                models == links_of(md),
                md == self.markdown@,
                unique == self.links@.1,
                is_unique_urls(unique, models),
                text@ == replaced(md, models, unique, i as nat),
            decreases links@.len() - i,
        {
            let link = &links[i];
            assert(models[i as int] == link@);
            assert(models[i as int].2 == link.url@);
            let k: usize = match self.links.index_of(&link.url) {
                Some(k) => k,
                None => {
                    proof {
                        assert(unique.contains(link.url@));
                    }
                    0
                },
            };
            proof {
                lemma_url_index(unique, k as int);
            }
            let mut new_link = link.text.clone();
            new_link.append(" ");
            new_link.append("[^anchor");
            let number = natural_to_string((k + 1) as u64);
            new_link.append(number.as_str());
            new_link.append("]");
            assert(new_link@ =~= replacement(models[i as int], unique));
            text = replace_text(&text, &link.link, &new_link);
            i = i + 1;
        }
        let notes = self.links.map_unique(footnote_of);
        let count = notes.len();
        proof {
            assert forall|n: int| 0 <= n < notes@.len() implies #[trigger] notes@[n]@ == footnote(
                unique[n],
                (n + 1) as nat,
            ) by {
                assert(self.links.url_strings()[n]@ == unique[n]);
                assert(footnote_of.ensures((&self.links.url_strings()[n], (n + 1) as usize), notes@[n]));
            }
            assert(text@ =~= replaced(md, models, unique, models.len()) + footnotes(unique, 0));
        }
        let mut j: usize = 0;
        while j < notes.len()
            invariant
                j <= notes@.len(),
                notes@.len() == unique.len(),
                unique == self.links@.1,
                forall|n: int| 0 <= n < notes@.len() ==> #[trigger] notes@[n]@ == footnote(unique[n], (n + 1) as nat),
                text@ == replaced(md, models, unique, models.len()) + footnotes(unique, j as nat),
            decreases notes@.len() - j,
        {
            let ghost prev = text@;
            text.append("\n");
            text.append(notes[j].as_str());
            assert(text@ =~= replaced(md, models, unique, models.len()) + footnotes(unique, (j + 1) as nat));
            j = j + 1;
        }
        text
    }
}

} // verus!
