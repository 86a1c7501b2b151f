//! The emoji catalogue.

use vstd::prelude::*;
use vstd::string::StringExecFns;

verus! {

/// One entry of the catalogue.
#[derive(Debug)]
pub struct Emoji {
    pub code: String,
    pub name: String,
    pub emoji: String,
    pub entity: String,
    pub description: String,
}

/// An entry as contracts see it.
pub struct EmojiView {
    pub code: Seq<char>,
    pub name: Seq<char>,
    pub emoji: Seq<char>,
    pub entity: Seq<char>,
    pub description: Seq<char>,
}

impl View for Emoji {
    type V = EmojiView;

    open spec fn view(&self) -> EmojiView {
        EmojiView {
            code: self.code@,
            name: self.name@,
            emoji: self.emoji@,
            entity: self.entity@,
            description: self.description@,
        }
    }
}

impl DeepView for Emoji {
    type V = EmojiView;

    open spec fn deep_view(&self) -> EmojiView {
        self@
    }
}

impl EmojiView {
    /// `value` names this entry: it is its glyph or its code.
    pub open spec fn answers_to(self, value: Seq<char>) -> bool {
        self.emoji == value || self.code == value
    }

    /// How the entry reads in a list of choices.
    pub open spec fn label(self) -> Seq<char> {
        self.emoji + " - "@ + self.description
    }
}

/// The catalogue.
#[derive(Debug)]
pub struct EmojisObject {
    pub emojis: Vec<Emoji>,
}

impl View for EmojisObject {
    type V = Seq<EmojiView>;

    open spec fn view(&self) -> Seq<EmojiView> {
        self.emojis.deep_view()
    }
}

/// The place of the first entry of `catalogue` that answers to `value`.
pub open spec fn first_answering(catalogue: Seq<EmojiView>, value: Seq<char>) -> Option<int>
    decreases catalogue.len(),
{
    if catalogue.len() == 0 {
        None
    } else {
        match first_answering(catalogue.drop_last(), value) {
            Some(i) => Some(i),
            None => if catalogue.last().answers_to(value) {
                Some(catalogue.len() - 1)
            } else {
                None
            },
        }
    }
}

/// `first_answering` finds an entry that answers, and none before it does; it
/// finds none only where no entry answers.
pub proof fn lemma_first_answering(catalogue: Seq<EmojiView>, value: Seq<char>)
    ensures
        match first_answering(catalogue, value) {
            Some(i) => {
                &&& 0 <= i < catalogue.len()
                &&& catalogue[i].answers_to(value)
                &&& forall|j: int| 0 <= j < i ==> !catalogue[j].answers_to(value)
            },
            None => forall|j: int| 0 <= j < catalogue.len() ==> !catalogue[j].answers_to(value),
        },
    decreases catalogue.len(),
{
    if catalogue.len() > 0 {
        let init = catalogue.drop_last();
        lemma_first_answering(init, value);
        assert forall|j: int| 0 <= j < init.len() implies #[trigger] catalogue[j] == init[j] by {}
    }
}

impl Clone for Emoji {
    fn clone(&self) -> (out: Emoji)
        ensures
            out@ == self@,
    {
        Emoji {
            code: self.code.clone(),
            name: self.name.clone(),
            emoji: self.emoji.clone(),
            entity: self.entity.clone(),
            description: self.description.clone(),
        }
    }
}

impl Emoji {
    /// How the entry reads in a list of choices.
    pub fn label(&self) -> (out: String)
        ensures
            out@ == self@.label(),
    {
        self.emoji.clone().concat(" - ").concat(self.description.as_str())
    }

    /// Whether `value` is the glyph or the code of this entry.
    pub fn answers_to(&self, value: &String) -> (r: bool)
        ensures
            r == self@.answers_to(value@),
    {
        self.emoji == *value || self.code == *value
    }
}

impl EmojisObject {
    /// The place of the first entry whose glyph or code is `value`.
    pub fn position(&self, value: &String) -> (found: Option<usize>)
        ensures
            match found {
                Some(i) => first_answering(self@, value@) == Some(i as int),
                None => first_answering(self@, value@) is None,
            },
    {
        let n: usize = self.emojis.len();
        let mut i: usize = 0;
        while i < n
            invariant
                i <= n,
                n == self.emojis.len(),
                first_answering(self@.take(i as int), value@) is None,
            decreases n - i,
        {
            assert(self@.take(i + 1).drop_last() =~= self@.take(i as int));
            if self.emojis[i].answers_to(value) {
                proof {
                    lemma_first_answering_stays(self@, value@, i + 1);
                }
                return Some(i);
            }
            i += 1;
        }
        assert(self@.take(n as int) =~= self@);
        None
    }
}

/// What `first_answering` finds among the first `n` entries, it finds in the whole.
proof fn lemma_first_answering_stays(catalogue: Seq<EmojiView>, value: Seq<char>, n: int)
    requires
        0 <= n <= catalogue.len(),
        first_answering(catalogue.take(n), value) is Some,
    ensures
        first_answering(catalogue, value) == first_answering(catalogue.take(n), value),
    decreases catalogue.len() - n,
{
    if n < catalogue.len() {
        assert(catalogue.take(n + 1).drop_last() =~= catalogue.take(n));
        lemma_first_answering_stays(catalogue, value, n + 1);
    } else {
        assert(catalogue.take(n) =~= catalogue);
    }
}

} // verus!
