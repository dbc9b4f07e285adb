//! The document on screen, the place in it, and the way back.

use vstd::prelude::*;
use crate::error::Error;
use crate::ui::models::{Article, ArticleView};
use crate::ui::models::table_of_contents::{Item, ItemView, Table, TableView, within_items};
use crate::wiki::coordinator::{Delivery, SlotView, delivery};
use crate::wiki::markup::chars_of;

verus! {

/// True when `part` stands in `text` at place `at`.
pub open spec fn occurs_at(text: Seq<char>, part: Seq<char>, at: int) -> bool {
    0 <= at && at + part.len() <= text.len() && text.subrange(at, at + part.len()) == part
}

/// The first place at or after `at` where `part` stands in `text`.
pub open spec fn occurrence_from(text: Seq<char>, part: Seq<char>, at: int) -> Option<int>
    decreases text.len() + 1 - at,
{
    if at < 0 || at + part.len() > text.len() {
        None
    } else if occurs_at(text, part, at) {
        Some(at)
    } else {
        occurrence_from(text, part, at + 1)
    }
}

/// The first place where `part` stands in `text`.
pub open spec fn first_occurrence(text: Seq<char>, part: Seq<char>) -> Option<int> {
    occurrence_from(text, part, 0)
}

/// `occurrence_from` gives the least place not before `at` where the part
/// stands, and nothing exactly when it stands nowhere from `at` on.
pub proof fn lemma_occurrence_from(text: Seq<char>, part: Seq<char>, at: int)
    requires
        0 <= at,
    ensures
        match occurrence_from(text, part, at) {
            Some(p) => at <= p && occurs_at(text, part, p) && forall|q: int|
                at <= q < p ==> !occurs_at(text, part, q),
            None => forall|q: int| at <= q ==> !occurs_at(text, part, q),
        },
    decreases text.len() + 1 - at,
{
    if at + part.len() <= text.len() && !occurs_at(text, part, at) {
        lemma_occurrence_from(text, part, at + 1);
    }
}

/// Tells whether `part` stands in `text` at place `at`.
fn matches_at(text: &Vec<char>, part: &Vec<char>, at: usize) -> (b: bool)
    requires
        at + part.len() <= text.len(),
    ensures
        b == occurs_at(text@, part@, at as int),
{
    let mut k: usize = 0;
    while k < part.len()
        invariant
            k <= part.len(),
            at + part.len() <= text.len(),
            forall|j: int| 0 <= j < k ==> text@[at + j] == part@[j],
        decreases part.len() - k,
    {
        if text[at + k] != part[k] {
            assert(text@.subrange(at as int, at + part.len())[k as int] != part@[k as int]);
            return false;
        }
        k += 1;
    }
    assert(text@.subrange(at as int, at + part.len()) =~= part@);
    true
}

/// Finds the first place where `part` stands in `text`.
pub fn find_first(text: &Vec<char>, part: &Vec<char>) -> (r: Option<usize>)
    ensures
        match r {
            Some(p) => first_occurrence(text@, part@) == Some(p as int),
            None => first_occurrence(text@, part@) is None,
        },
{
    if part.len() > text.len() {
        return None;
    }
    let last: usize = text.len() - part.len();
    let mut at: usize = 0;
    loop
        invariant
            at <= last,
            last == text.len() - part.len(),
            occurrence_from(text@, part@, at as int) == first_occurrence(text@, part@),
        decreases last - at,
    {
        if matches_at(text, part, at) {
            return Some(at);
        }
        if at == last {
            assert(occurrence_from(text@, part@, at + 1) is None);
            return None;
        }
        at += 1;
    }
}

/// How many line feeds stand in `text` before place `at`: the line of that
/// place, counted from zero.
pub open spec fn line_of(text: Seq<char>, at: int) -> int
    decreases at,
{
    if at <= 0 || at > text.len() {
        0
    } else if text[at - 1] == '\n' {
        line_of(text, at - 1) + 1
    } else {
        line_of(text, at - 1)
    }
}

/// Counts the line feeds before place `at`.
pub fn count_lines(text: &Vec<char>, at: usize) -> (line: usize)
    requires
        at <= text.len(),
    ensures
        line == line_of(text@, at as int),
        line <= at,
{
    let mut line: usize = 0;
    let mut k: usize = 0;
    while k < at
        invariant
            k <= at <= text.len(),
            line <= k,
            line == line_of(text@, k as int),
        decreases at - k,
    {
        if text[k] == '\n' {
            line += 1;
        }
        k += 1;
    }
    line
}

/// What the state of browsing says, apart from where it is stored.
pub ghost struct NavigationView {
    /// The article on screen, if any.
    pub article: Option<ArticleView>,
    /// The outline of that article.
    pub table: Option<TableView>,
    /// The selected place in the article's body, counted in characters.
    pub selection: int,
    /// The identifiers of the pages left behind, the latest last.
    pub history: Seq<int>,
}

impl NavigationView {
    /// What every state of browsing keeps: article and outline come
    /// together, the selection lies in the body, and nothing is in the
    /// history before a first article.
    pub open spec fn well_formed(self) -> bool {
        &&& self.article is Some <==> self.table is Some
        &&& match self.article {
            Some(a) => 0 <= self.selection <= a.content.len(),
            None => self.selection == 0 && self.history.len() == 0,
        }
    }

    /// The state before anything was opened.
    pub open spec fn blank() -> NavigationView {
        NavigationView { article: None, table: None, selection: 0, history: Seq::empty() }
    }

    /// The state after `article` with its outline was opened: it replaces
    /// what was on screen, whose identifier goes onto the history, and the
    /// selection is at the top.
    pub open spec fn opened(self, article: ArticleView, table: TableView) -> NavigationView {
        NavigationView {
            article: Some(article),
            table: Some(table),
            selection: 0,
            history: match self.article {
                Some(previous) => self.history.push(previous.page_id),
                None => self.history,
            },
        }
    }

    /// The place in the body that an outline entry stands for: the first
    /// place where its text stands in the body, if the entry belongs to the
    /// outline on screen.
    pub open spec fn section_position(self, item: ItemView) -> Option<int> {
        if self.article is Some && self.table is Some && within_items(self.table->0.items, item) {
            first_occurrence(self.article->0.content, item.text)
        } else {
            None
        }
    }

    /// The same state with another selection.
    pub open spec fn selected(self, at: int) -> NavigationView {
        NavigationView { selection: at, ..self }
    }

    /// The state after a delivery arrived: an article that is to be acted on
    /// is opened, and everything else leaves the state as it is.
    pub open spec fn received(
        self,
        arrived: Delivery<Result<(ArticleView, TableView), Error>>,
    ) -> NavigationView {
        match arrived {
            Delivery::Apply(Ok((article, table))) => self.opened(article, table),
            _ => self,
        }
    }

    /// The line of the selected place in the body, counted from zero.
    pub open spec fn selected_line(self) -> int {
        match self.article {
            Some(article) => line_of(article.content, self.selection),
            None => 0,
        }
    }

    /// The same state without the latest entry of the history.
    pub open spec fn went_back(self) -> NavigationView {
        NavigationView { history: self.history.drop_last(), ..self }
    }
}

/// The document on screen, the selected place in it, and the identifiers of
/// the pages left behind.
pub struct NavigationState {
    article: Option<Article>,
    table: Option<Table>,
    selection: usize,
    history: Vec<i32>,
}

impl View for NavigationState {
    type V = NavigationView;

    closed spec fn view(&self) -> NavigationView {
        NavigationView {
            article: match self.article {
                Some(a) => Some(a@),
                None => None,
            },
            table: match self.table {
                Some(t) => Some(t@),
                None => None,
            },
            selection: self.selection as int,
            history: self.history@.map_values(|id: i32| id as int),
        }
    }
}

impl NavigationState {
    /// The state's invariant.
    pub open spec fn wf(&self) -> bool {
        self@.well_formed()
    }

    /// The state before anything was opened.
    pub fn new() -> (state: Self)
        ensures
            state.wf(),
            state@ == NavigationView::blank(),
    {
        let state = NavigationState {
            article: None,
            table: None,
            selection: 0,
            history: Vec::new(),
        };
        assert(state@.history =~= Seq::<int>::empty());
        state
    }

    /// Puts an article with its outline on screen in place of what was
    /// there. The identifier of the article left behind goes onto the
    /// history, and the selection goes to the top.
    pub fn open(&mut self, article: Article, table: Table)
        requires
            old(self).wf(),
        ensures
            final(self).wf(),
            final(self)@ == old(self)@.opened(article@, table@),
    {
        match &self.article {
            Some(previous) => {
                let id = previous.page_id;
                self.history.push(id);
            },
            None => {},
        }
        self.article = Some(article);
        self.table = Some(table);
        self.selection = 0;
        assert(self@.history =~= old(self)@.opened(article@, table@).history);
    }

    /// Moves the selection to the place in the body that the outline entry
    /// stands for. An entry that does not belong to the outline on screen,
    /// or whose text stands nowhere in the body, is refused, and nothing
    /// changes.
    pub fn jump_to_section(&mut self, item: &Item) -> (r: Result<usize, Error>)
        requires
            old(self).wf(),
        ensures
            final(self).wf(),
            match r {
                Ok(at) => old(self)@.section_position(item@) == Some(at as int) && final(self)@
                    == old(self)@.selected(at as int),
                Err(e) => old(self)@.section_position(item@) is None && e
                    == Error::InvalidSelection && final(self)@ == old(self)@,
            },
    {
        let found = match (&self.article, &self.table) {
            (Some(article), Some(table)) => {
                if table.contains(item) {
                    let body = chars_of(article.content.as_str());
                    let heading = chars_of(item.text.as_str());
                    proof {
                        crate::ui::models::table_of_contents::lemma_sub_items_view(*item);
                        lemma_occurrence_from(body@, heading@, 0);
                    }
                    find_first(&body, &heading)
                } else {
                    None
                }
            },
            _ => None,
        };
        match found {
            Some(at) => {
                self.selection = at;
                Ok(at)
            },
            None => Err(Error::InvalidSelection),
        }
    }

    /// Takes what the coordinator made of a fetched article. An article that
    /// is to be acted on is opened, and the answer is `true`. A failure that
    /// is to be acted on is handed back for display. A dropped outcome does
    /// nothing, and the answer is `false`. But for an opened article the
    /// state stays as it is.
    pub fn receive(&mut self, arrived: Delivery<Result<(Article, Table), Error>>) -> (r: Result<
        bool,
        Error,
    >)
        requires
            old(self).wf(),
        ensures
            final(self).wf(),
            match arrived {
                Delivery::Apply(Ok((article, table))) => {
                    &&& r == Ok::<bool, Error>(true)
                    &&& final(self)@ == old(self)@.opened(article@, table@)
                },
                Delivery::Apply(Err(e)) => {
                    &&& r == Err::<bool, Error>(e)
                    &&& final(self)@ == old(self)@
                },
                Delivery::Dropped => {
                    &&& r == Ok::<bool, Error>(false)
                    &&& final(self)@ == old(self)@
                },
            },
    {
        match arrived {
            Delivery::Apply(Ok((article, table))) => {
                self.open(article, table);
                Ok(true)
            },
            Delivery::Apply(Err(e)) => Err(e),
            Delivery::Dropped => Ok(false),
        }
    }

    /// The article on screen, if any.
    pub fn article(&self) -> (a: Option<&Article>)
        ensures
            match a {
                Some(article) => self@.article == Some(article@),
                None => self@.article is None,
            },
    {
        self.article.as_ref()
    }

    /// The outline of the article on screen, if any.
    pub fn table(&self) -> (t: Option<&Table>)
        ensures
            match t {
                Some(table) => self@.table == Some(table@),
                None => self@.table is None,
            },
    {
        self.table.as_ref()
    }

    /// The selected place in the body, counted in characters.
    pub fn selection(&self) -> (at: usize)
        ensures
            at == self@.selection,
    {
        self.selection
    }

    /// The line of the selected place in the body, counted from zero.
    pub fn selected_line(&self) -> (line: usize)
        requires
            self.wf(),
        ensures
            line == self@.selected_line(),
    {
        match &self.article {
            Some(article) => {
                let body = chars_of(article.content.as_str());
                count_lines(&body, self.selection)
            },
            None => 0,
        }
    }

    /// How many pages the history holds.
    pub fn history_len(&self) -> (n: usize)
        ensures
            n == self@.history.len(),
    {
        self.history.len()
    }

    /// Takes the latest identifier off the history and hands it out, for the
    /// caller to fetch that page again. With an empty history nothing
    /// changes.
    pub fn go_back(&mut self) -> (r: Result<i32, Error>)
        requires
            old(self).wf(),
        ensures
            final(self).wf(),
            match r {
                Ok(id) => old(self)@.history.len() > 0 && id == old(self)@.history.last()
                    && final(self)@ == old(self)@.went_back(),
                Err(e) => old(self)@.history.len() == 0 && e == Error::EmptyHistory && final(self)@
                    == old(self)@,
            },
    {
        match self.history.pop() {
            Some(id) => {
                assert(self@.history =~= old(self)@.went_back().history);
                Ok(id)
            },
            None => Err(Error::EmptyHistory),
        }
    }
}

/// When two fetches were issued one after the other and both bring an
/// article, the state shows the second article alone, opened once,
/// whichever of the two arrives first.
pub proof fn lemma_latest_fetch_shows(
    slot: SlotView,
    nav: NavigationView,
    first: (ArticleView, TableView),
    second: (ArticleView, TableView),
)
    ensures
        ({
            let a = slot.submitted().issued;
            let both = slot.submitted().submitted();
            let b = both.issued;
            let want = nav.opened(second.0, second.1);
            &&& nav.received(delivery(both, a, Ok(first))).received(
                delivery(both.delivered(a), b, Ok(second)),
            ) == want
            &&& nav.received(delivery(both, b, Ok(second))).received(
                delivery(both.delivered(b), a, Ok(first)),
            ) == want
        }),
{
}

/// An outline entry that does not stand in the outline just opened has no
/// place in the body: a jump to it is refused.
pub proof fn lemma_stale_item_refused(
    nav: NavigationView,
    article: ArticleView,
    table: TableView,
    item: ItemView,
)
    requires
        !within_items(table.items, item),
    ensures
        nav.opened(article, table).section_position(item) is None,
{
}

/// Opening an article over another one puts that one's identifier on top
/// of the history, and going back once takes it off again and leaves the
/// history as it was. Opening the first article of all leaves the history
/// empty.
pub proof fn lemma_back_after_open(nav: NavigationView, article: ArticleView, table: TableView)
    requires
        nav.well_formed(),
    ensures
        nav.opened(article, table).well_formed(),
        nav.article is Some ==> {
            let after = nav.opened(article, table);
            &&& after.history.len() == nav.history.len() + 1
            &&& after.history.last() == nav.article->0.page_id
            &&& after.went_back().history == nav.history
        },
        nav.article is None ==> nav.opened(article, table).history.len() == 0,
{
    if nav.article is Some {
        let after = nav.opened(article, table);
        assert(after.went_back().history =~= nav.history);
    }
}

} // verus!
