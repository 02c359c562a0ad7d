//! The languages that text to speech can speak, and which of them are
//! enabled.

use vstd::prelude::*;
use crate::seqs::distinct;
use crate::seqs::first_index;
use crate::seqs::lemma_first_index;
use crate::seqs::lemma_first_index_is;
use crate::strings::chars_le;
use crate::strings::lemma_text_le_total;
use crate::strings::lemma_text_le_transitive;
use crate::strings::str_eq;
use crate::strings::text_le;
use crate::text::chars_of;
use crate::tts::defaults::default_config;
use crate::tts::defaults::default_languages;

verus! {

/// A language: its code, its English name, and whether it is enabled.
#[derive(Debug, PartialEq, Eq)]
pub struct Language {
    pub code: String,
    pub name: String,
    pub enabled: bool,
}

/// The mathematical value of a [`Language`].
pub struct LanguageView {
    pub code: Seq<char>,
    pub name: Seq<char>,
    pub enabled: bool,
}

impl View for Language {
    type V = LanguageView;

    open spec fn view(&self) -> LanguageView {
        LanguageView { code: self.code@, name: self.name@, enabled: self.enabled }
    }
}

impl DeepView for Language {
    type V = LanguageView;

    open spec fn deep_view(&self) -> LanguageView {
        self@
    }
}

impl Clone for Language {
    fn clone(&self) -> (r: Self)
        ensures
            r@ == self@,
    {
        Language { code: self.code.clone(), name: self.name.clone(), enabled: self.enabled }
    }
}

/// The enabled language with the given code and name.
pub open spec fn language(code: Seq<char>, name: Seq<char>) -> LanguageView {
    LanguageView { code, name, enabled: true }
}

impl Language {
    /// An enabled language.
    pub fn new(code: &str, name: &str) -> (r: Language)
        ensures
            r@ == language(code@, name@),
    {
        Language { code: code.to_owned(), name: name.to_owned(), enabled: true }
    }
}

/// The codes of the languages, in their order.
pub open spec fn codes(s: Seq<LanguageView>) -> Seq<Seq<char>> {
    Seq::new(s.len(), |i: int| s[i].code)
}

/// The position of the first language with the code `code`, or the number
/// of languages where there is none.
pub open spec fn language_index(s: Seq<LanguageView>, code: Seq<char>) -> int {
    first_index(codes(s), code)
}

/// Whether some language has the code `code`.
pub open spec fn has_language(s: Seq<LanguageView>, code: Seq<char>) -> bool {
    language_index(s, code) < s.len()
}

/// The language with the code `code`, if there is one.
pub open spec fn find_language(s: Seq<LanguageView>, code: Seq<char>) -> Option<LanguageView> {
    if has_language(s, code) {
        Some(s[language_index(s, code)])
    } else {
        None
    }
}

/// The languages after `lang` is put among them: it replaces the language
/// with its code in place, or goes to the end.
pub open spec fn put(s: Seq<LanguageView>, lang: LanguageView) -> Seq<LanguageView> {
    if has_language(s, lang.code) {
        s.update(language_index(s, lang.code), lang)
    } else {
        s.push(lang)
    }
}

/// The languages with the flag of the language `code` set to `enabled`;
/// unchanged where there is no such language.
pub open spec fn with_enabled(s: Seq<LanguageView>, code: Seq<char>, enabled: bool) -> Seq<
    LanguageView,
> {
    if has_language(s, code) {
        let k = language_index(s, code);
        s.update(k, LanguageView { enabled, ..s[k] })
    } else {
        s
    }
}

/// The enabled languages among `s`, in the order of `s`.
pub open spec fn enabled_languages(s: Seq<LanguageView>) -> Seq<LanguageView>
    decreases s.len(),
{
    if s.len() == 0 {
        Seq::empty()
    } else if s.last().enabled {
        enabled_languages(s.drop_last()).push(s.last())
    } else {
        enabled_languages(s.drop_last())
    }
}

/// No two languages have the same code.
pub open spec fn distinct_codes(s: Seq<LanguageView>) -> bool {
    forall|i: int, j: int| 0 <= i < j < s.len() ==> s[i].code != s[j].code
}

/// The names never go down along `s`.
pub open spec fn sorted_by_name(s: Seq<LanguageView>) -> bool {
    forall|i: int, j: int| 0 <= i < j < s.len() ==> text_le(s[i].name, s[j].name)
}

/// `order` names every position of a sequence of length `n` exactly once.
pub open spec fn is_permutation(order: Seq<int>, n: int) -> bool {
    &&& order.len() == n
    &&& distinct(order)
    &&& forall|k: int| 0 <= k < n ==> 0 <= #[trigger] order[k] < n
}

/// `r` holds the members of `s` in the order that `order` gives.
pub open spec fn arranged_by(r: Seq<LanguageView>, s: Seq<LanguageView>, order: Seq<int>) -> bool {
    &&& is_permutation(order, s.len() as int)
    &&& r.len() == s.len()
    &&& forall|k: int| 0 <= k < r.len() ==> r[k] == s[#[trigger] order[k]]
}

/// `r` holds the members of `s`, each as often as `s` does, in some order.
pub open spec fn is_rearrangement(r: Seq<LanguageView>, s: Seq<LanguageView>) -> bool {
    exists|order: Seq<int>| arranged_by(r, s, order)
}

/// Where `x` goes among `s`, which is sorted by name: behind every
/// language whose name does not come after its own.
pub open spec fn insert_position(s: Seq<LanguageView>, x: LanguageView) -> int
    decreases s.len(),
{
    if s.len() == 0 || !text_le(s[0].name, x.name) {
        0
    } else {
        1 + insert_position(s.drop_first(), x)
    }
}

/// The languages of `s` sorted by name. Languages with the same name keep
/// the order that they have in `s`.
pub open spec fn sorted_languages(s: Seq<LanguageView>) -> Seq<LanguageView>
    decreases s.len(),
{
    if s.len() == 0 {
        Seq::empty()
    } else {
        let init = sorted_languages(s.drop_last());
        init.insert(insert_position(init, s.last()), s.last())
    }
}

/// A position behind names that do not come after that of `x`, and before
/// a name that does, is `insert_position`.
pub proof fn lemma_insert_position_is(s: Seq<LanguageView>, x: LanguageView, p: int)
    requires
        0 <= p <= s.len(),
        forall|k: int| 0 <= k < p ==> text_le((#[trigger] s[k]).name, x.name),
        p < s.len() ==> !text_le(s[p].name, x.name),
    ensures
        insert_position(s, x) == p,
    decreases p,
{
    if p > 0 {
        let t = s.drop_first();
        assert(text_le(s[0].name, x.name));
        assert forall|k: int| 0 <= k < p - 1 implies text_le((#[trigger] t[k]).name, x.name) by {
            assert(t[k] == s[k + 1]);
        }
        if p < s.len() {
            assert(t[p - 1] == s[p]);
        }
        lemma_insert_position_is(t, x, p - 1);
    }
}

/// `language_index` is within the languages exactly when one of them has
/// the code, and then it is the first such.
pub proof fn lemma_language_index(s: Seq<LanguageView>, code: Seq<char>)
    ensures
        0 <= language_index(s, code) <= s.len(),
        has_language(s, code) ==> s[language_index(s, code)].code == code,
        forall|i: int| 0 <= i < language_index(s, code) ==> (#[trigger] s[i]).code != code,
{
    lemma_first_index(codes(s), code);
    assert forall|i: int| 0 <= i < language_index(s, code) implies (#[trigger] s[i]).code
        != code by {
        assert(codes(s)[i] == s[i].code);
    }
}

/// A position that holds the code after positions that do not is
/// `language_index`.
pub proof fn lemma_language_index_is(s: Seq<LanguageView>, code: Seq<char>, k: int)
    requires
        0 <= k <= s.len(),
        forall|i: int| 0 <= i < k ==> (#[trigger] s[i]).code != code,
        k < s.len() ==> s[k].code == code,
    ensures
        language_index(s, code) == k,
{
    assert forall|i: int| 0 <= i < k implies codes(s)[i] != code by {
        assert(s[i].code != code);
    }
    lemma_first_index_is(codes(s), code, k);
}

/// Among languages with distinct codes, the code of a language leads to
/// that language.
pub proof fn lemma_find_by_code(s: Seq<LanguageView>, i: int)
    requires
        distinct_codes(s),
        0 <= i < s.len(),
    ensures
        find_language(s, s[i].code) == Some(s[i]),
{
    lemma_language_index_is(s, s[i].code, i);
}

/// Putting a language among languages with distinct codes keeps the codes
/// distinct.
pub proof fn lemma_put_keeps_codes_distinct(s: Seq<LanguageView>, lang: LanguageView)
    requires
        distinct_codes(s),
    ensures
        distinct_codes(put(s, lang)),
{
    lemma_language_index(s, lang.code);
    let k = language_index(s, lang.code);
    let t = put(s, lang);
    assert forall|i: int, j: int| 0 <= i < j < t.len() implies t[i].code != t[j].code by {
        if k < s.len() {
            assert(t[i].code == s[i].code);
            assert(t[j].code == s[j].code);
        } else if j == s.len() {
            assert(t[i] == s[i]);
        }
    }
}

/// Which languages are enabled.
#[derive(Debug)]
pub struct LanguageConfig {
    languages: Vec<Language>,
}

impl View for LanguageConfig {
    type V = Seq<LanguageView>;

    /// The languages, in the order in which their codes first came in.
    closed spec fn view(&self) -> Seq<LanguageView> {
        self.languages.deep_view()
    }
}

impl LanguageConfig {
    /// The configuration with every language that the speech service
    /// offers, all of them enabled.
    pub fn new() -> (r: LanguageConfig)
        ensures
            r@ == default_languages(),
            distinct_codes(r@),
    {
        default_config()
    }

    /// Adds an enabled language at the end.
    pub(crate) fn add(&mut self, code: &str, name: &str)
        ensures
            final(self)@ == old(self)@.push(language(code@, name@)),
    {
        self.languages.push(Language::new(code, name));
        assert(self@ =~= old(self)@.push(language(code@, name@)));
    }

    /// A configuration without languages.
    pub fn empty() -> (r: LanguageConfig)
        ensures
            r@ == Seq::<LanguageView>::empty(),
            distinct_codes(r@),
    {
        let r = LanguageConfig { languages: Vec::new() };
        assert(r@ =~= Seq::<LanguageView>::empty());
        r
    }

    /// The number of languages.
    pub fn len(&self) -> (n: usize)
        ensures
            n == self@.len(),
    {
        self.languages.len()
    }

    /// The position of the language with the code `code`.
    fn find(&self, code: &str) -> (k: usize)
        ensures
            k == language_index(self@, code@),
            k <= self.languages@.len(),
            self.languages@.len() == self@.len(),
            k < self@.len() ==> self@[k as int].code == code@,
    {
        let mut k: usize = 0;
        while k < self.languages.len()
            invariant
                k <= self.languages.len(),
                forall|i: int| 0 <= i < k ==> (#[trigger] self@[i]).code != code@,
            ensures
                k < self.languages.len() ==> self@[k as int].code == code@,
            decreases self.languages.len() - k,
        {
            assert(self@[k as int].code == self.languages[k as int].code@);
            if str_eq(self.languages[k].code.as_str(), code) {
                break;
            }
            k += 1;
        }
        proof {
            lemma_language_index_is(self@, code@, k as int);
        }
        k
    }

    /// Puts `lang` into the configuration: it replaces the language with
    /// its code, or is added at the end.
    pub fn insert(&mut self, lang: Language)
        ensures
            final(self)@ == put(old(self)@, lang@),
            distinct_codes(old(self)@) ==> distinct_codes(final(self)@),
    {
        let k = self.find(lang.code.as_str());
        let ghost l = lang@;
        if k < self.languages.len() {
            self.languages[k] = lang;
            assert(self@ =~= old(self)@.update(k as int, l));
        } else {
            self.languages.push(lang);
            assert(self@ =~= old(self)@.push(l));
        }
        proof {
            if distinct_codes(old(self)@) {
                lemma_put_keeps_codes_distinct(old(self)@, l);
            }
        }
    }

    /// The language with the code `code`.
    pub fn get_language(&self, code: &str) -> (r: Option<&Language>)
        ensures
            r is Some == has_language(self@, code@),
            r matches Some(l) ==> Some(l@) == find_language(self@, code@),
    {
        let k = self.find(code);
        if k < self.languages.len() {
            assert(self@[k as int] == self.languages[k as int]@);
            Some(&self.languages[k])
        } else {
            None
        }
    }

    /// Whether the language with the code `code` exists and is enabled.
    pub fn is_enabled(&self, code: &str) -> (r: bool)
        ensures
            r == match find_language(self@, code@) {
                Some(l) => l.enabled,
                None => false,
            },
    {
        match self.get_language(code) {
            Some(lang) => lang.enabled,
            None => false,
        }
    }

    /// Sets the flag of the language `code` to `enabled`.
    fn set_enabled(&mut self, code: &str, enabled: bool)
        ensures
            final(self)@ == with_enabled(old(self)@, code@, enabled),
            distinct_codes(old(self)@) ==> distinct_codes(final(self)@),
    {
        let k = self.find(code);
        if k < self.languages.len() {
            assert(self@[k as int] == self.languages[k as int]@);
            self.languages[k].enabled = enabled;
            assert(self@ =~= old(self)@.update(
                k as int,
                LanguageView { enabled, ..old(self)@[k as int] },
            ));
            assert forall|i: int, j: int| 0 <= i < j < self@.len() implies (self@[i].code
                == old(self)@[i].code && self@[j].code == old(self)@[j].code) by {}
        }
    }

    /// Enables the language `code` if it is disabled, and disables it if
    /// it is enabled. Does nothing where there is no such language.
    pub fn toggle_language(&mut self, code: &str)
        ensures
            final(self)@ == match find_language(old(self)@, code@) {
                Some(l) => with_enabled(old(self)@, code@, !l.enabled),
                None => old(self)@,
            },
            distinct_codes(old(self)@) ==> distinct_codes(final(self)@),
    {
        let enabled = self.is_enabled(code);
        self.set_enabled(code, !enabled);
    }

    /// Enables the language `code`. Does nothing where there is no such
    /// language.
    pub fn enable_language(&mut self, code: &str)
        ensures
            final(self)@ == with_enabled(old(self)@, code@, true),
            distinct_codes(old(self)@) ==> distinct_codes(final(self)@),
    {
        self.set_enabled(code, true);
    }

    /// Disables the language `code`. Does nothing where there is no such
    /// language.
    pub fn disable_language(&mut self, code: &str)
        ensures
            final(self)@ == with_enabled(old(self)@, code@, false),
            distinct_codes(old(self)@) ==> distinct_codes(final(self)@),
    {
        self.set_enabled(code, false);
    }

    /// The enabled languages, in the order of the configuration.
    pub fn get_enabled_languages(&self) -> (r: Vec<&Language>)
        ensures
            r.deep_view() == enabled_languages(self@),
    {
        let mut r: Vec<&Language> = Vec::new();
        let mut i: usize = 0;
        assert(self@.take(0) =~= Seq::<LanguageView>::empty());
        assert(r.deep_view() =~= Seq::<LanguageView>::empty());
        while i < self.languages.len()
            invariant
                i <= self.languages.len(),
                r.deep_view() == enabled_languages(self@.take(i as int)),
            decreases self.languages.len() - i,
        {
            let ghost before = r.deep_view();
            proof {
                let head = self@.take(i as int);
                let next = self@.take(i + 1);
                assert(next =~= head.push(self@[i as int]));
                assert(next.drop_last() =~= head);
                assert(self@[i as int] == self.languages[i as int]@);
            }
            if self.languages[i].enabled {
                r.push(&self.languages[i]);
                assert(r.deep_view() =~= before.push(self@[i as int]));
            }
            i += 1;
        }
        assert(self@.take(self.languages.len() as int) =~= self@);
        r
    }

    /// All languages, sorted by name. Languages with the same name keep the
    /// order of the configuration.
    pub fn get_all_languages(&self) -> (r: Vec<&Language>)
        ensures
            r.deep_view() == sorted_languages(self@),
            is_rearrangement(r.deep_view(), self@),
            sorted_by_name(r.deep_view()),
    {
        let n = self.languages.len();
        let mut names: Vec<Vec<char>> = Vec::new();
        let mut i: usize = 0;
        while i < n
            invariant
                i <= n == self.languages.len(),
                names@.len() == i,
                forall|k: int| 0 <= k < i ==> (#[trigger] names@[k])@ == self@[k].name,
            decreases n - i,
        {
            assert(self@[i as int] == self.languages[i as int]@);
            names.push(chars_of(self.languages[i].name.as_str()));
            i += 1;
        }
        let mut order: Vec<usize> = Vec::new();
        i = 0;
        assert(self@.take(0) =~= Seq::<LanguageView>::empty());
        assert(Seq::new(0, |k: int| self@[order@[k] as int]) =~= sorted_languages(self@.take(0)));
        while i < n
            invariant
                i <= n == self.languages.len(),
                names@.len() == n,
                forall|k: int| 0 <= k < n ==> (#[trigger] names@[k])@ == self@[k].name,
                order@.len() == i,
                forall|k: int| 0 <= k < i ==> (#[trigger] order@[k]) < i,
                distinct(order@),
                forall|a: int, b: int|
                    0 <= a < b < i ==> text_le(
                        self@[order@[a] as int].name,
                        self@[order@[b] as int].name,
                    ),
                Seq::new(i as nat, |k: int| self@[order@[k] as int]) == sorted_languages(
                    self@.take(i as int),
                ),
            decreases n - i,
        {
            let mut p: usize = 0;
            while p < i && chars_le(&names[order[p]], &names[i])
                invariant
                    p <= i < n,
                    order@.len() == i,
                    names@.len() == n,
                    forall|k: int| 0 <= k < n ==> (#[trigger] names@[k])@ == self@[k].name,
                    forall|k: int| 0 <= k < i ==> (#[trigger] order@[k]) < i,
                    forall|k: int|
                        0 <= k < p ==> text_le(
                            self@[(#[trigger] order@[k]) as int].name,
                            self@[i as int].name,
                        ),
                decreases i - p,
            {
                p += 1;
            }
            let ghost before = order@;
            let ghost sorted_before = Seq::new(i as nat, |k: int| self@[before[k] as int]);
            order.insert(p, i);
            proof {
                let after = order@;
                assert(after =~= before.insert(p as int, i));
                assert forall|k: int| 0 <= k < i + 1 implies (#[trigger] after[k]) < i + 1 by {
                    if k < p {
                        assert(after[k] == before[k]);
                    } else if k > p {
                        assert(after[k] == before[k - 1]);
                    }
                }
                assert forall|a: int, b: int| 0 <= a < b < after.len() implies after[a]
                    != after[b] by {
                    let x = if a < p { a } else { a - 1 };
                    let y = if b < p { b } else { b - 1 };
                    if a != p && b != p {
                        assert(after[a] == before[x] && after[b] == before[y]);
                    } else if a == p {
                        assert(after[b] == before[y]);
                    } else {
                        assert(after[a] == before[x]);
                    }
                }
                assert forall|a: int, b: int| 0 <= a < b < i + 1 implies text_le(
                    self@[after[a] as int].name,
                    self@[after[b] as int].name,
                ) by {
                    let x = if a < p { a } else { a - 1 };
                    let y = if b < p { b } else { b - 1 };
                    if a != p && b != p {
                        assert(after[a] == before[x] && after[b] == before[y]);
                    } else if a == p {
                        assert(after[b] == before[y]);
                        assert(after[a] == i);
                        lemma_text_le_total(
                            self@[before[p as int] as int].name,
                            self@[i as int].name,
                        );
                        if y > p {
                            lemma_text_le_transitive(
                                self@[i as int].name,
                                self@[before[p as int] as int].name,
                                self@[before[y] as int].name,
                            );
                        }
                    } else {
                        assert(after[a] == before[x]);
                        assert(after[b] == i);
                    }
                }
                let prefix = self@.take(i + 1);
                assert(prefix.drop_last() =~= self@.take(i as int));
                assert(prefix.last() == self@[i as int]);
                assert forall|k: int| 0 <= k < p implies text_le(
                    (#[trigger] sorted_before[k]).name,
                    self@[i as int].name,
                ) by {
                    assert(sorted_before[k] == self@[before[k] as int]);
                }
                lemma_insert_position_is(sorted_before, self@[i as int], p as int);
                assert(Seq::new((i + 1) as nat, |k: int| self@[after[k] as int])
                    =~= sorted_before.insert(p as int, self@[i as int]));
            }
            i += 1;
        }
        let mut r: Vec<&Language> = Vec::new();
        let mut k: usize = 0;
        while k < n
            invariant
                k <= n == self.languages.len(),
                order@.len() == n,
                forall|j: int| 0 <= j < n ==> (#[trigger] order@[j]) < n,
                r@.len() == k,
                forall|j: int| 0 <= j < k ==> (#[trigger] r@[j])@ == self@[order@[j] as int],
            decreases n - k,
        {
            assert(self@[order@[k as int] as int] == self.languages[order@[k as int] as int]@);
            r.push(&self.languages[order[k]]);
            k += 1;
        }
        proof {
            let chosen = Seq::new(n as nat, |j: int| order@[j] as int);
            assert(distinct(chosen)) by {
                assert forall|a: int, b: int| 0 <= a < b < chosen.len() implies chosen[a]
                    != chosen[b] by {
                    assert(order@[a] != order@[b]);
                }
            }
            assert(arranged_by(r.deep_view(), self@, chosen));
            assert(self@.take(n as int) =~= self@);
            assert(r.deep_view() =~= Seq::new(n as nat, |k: int| self@[order@[k] as int]));
        }
        r
    }
}

impl LanguageConfig {
    /// Copies of all languages, sorted by name.
    pub fn sorted_copy(&self) -> (r: Vec<Language>)
        ensures
            r.deep_view() == sorted_languages(self@),
    {
        let sorted = self.get_all_languages();
        let mut r: Vec<Language> = Vec::new();
        let mut i: usize = 0;
        assert(r.deep_view() =~= sorted.deep_view().take(0));
        while i < sorted.len()
            invariant
                i <= sorted.len(),
                r.deep_view() == sorted.deep_view().take(i as int),
            decreases sorted.len() - i,
        {
            let ghost before = r.deep_view();
            let copy = sorted[i].clone();
            r.push(copy);
            assert(r.deep_view() =~= before.push(sorted[i as int]@));
            i += 1;
            assert(r.deep_view() =~= sorted.deep_view().take(i as int));
        }
        assert(sorted.deep_view().take(sorted.len() as int) =~= sorted.deep_view());
        r
    }
}

impl Clone for LanguageConfig {
    fn clone(&self) -> (r: Self)
        ensures
            r@ == self@,
    {
        let mut languages: Vec<Language> = Vec::new();
        let mut i: usize = 0;
        assert(languages.deep_view() =~= self@.take(0));
        while i < self.languages.len()
            invariant
                i <= self.languages.len(),
                languages.deep_view() == self@.take(i as int),
            decreases self.languages.len() - i,
        {
            let ghost before = languages.deep_view();
            let copy = self.languages[i].clone();
            languages.push(copy);
            assert(languages.deep_view() =~= before.push(self.languages[i as int]@));
            i += 1;
            assert(languages.deep_view() =~= self@.take(i as int));
        }
        assert(self@.take(self.languages.len() as int) =~= self@);
        LanguageConfig { languages }
    }
}

impl Default for LanguageConfig {
    fn default() -> (r: LanguageConfig)
        ensures
            r@ == default_languages(),
    {
        LanguageConfig::new()
    }
}

} // verus!
