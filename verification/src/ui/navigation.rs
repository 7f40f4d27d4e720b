//! The navigation the user arranges: categories of pages in the sidebar, the rows a
//! list shows as it scrolls, collapsed sections, and the editing of a notification
//! rule's audience.
use vstd::prelude::*;
use crate::screen_overlay::config::{EventRule, EventRuleView};
use crate::text::{chars_of, lower_exec, lower_seq, seq_eq, str_eq, string_of, strs, trim, trim_exec};
use crate::ui::friends::FriendSection;
use crate::ui::pages::Page;

verus! {

/// The pages the first category of the sidebar holds.
pub open spec fn essential_pages_view() -> Seq<Page> {
    seq![
        Page::Dashboard,
        Page::Notifications,
        Page::Worlds,
        Page::Groups,
        Page::MyAvatars,
        Page::Favorites,
        Page::VrOverlay,
    ]
}

/// The pages the first category of the sidebar holds.
pub fn essential_pages() -> (r: Vec<Page>)
    ensures
        r@ == essential_pages_view(),
{
    vec![
        Page::Dashboard,
        Page::Notifications,
        Page::Worlds,
        Page::Groups,
        Page::MyAvatars,
        Page::Favorites,
        Page::VrOverlay,
    ]
}

/// A named group of pages in the sidebar.
#[derive(Debug, Clone, PartialEq, Eq)]
pub struct NavCategory {
    pub name: String,
    pub pages: Vec<Page>,
}

/// The abstract value of a [`NavCategory`].
pub struct NavCategoryView {
    pub name: Seq<char>,
    pub pages: Seq<Page>,
}

impl View for NavCategory {
    type V = NavCategoryView;

    open spec fn view(&self) -> NavCategoryView {
        NavCategoryView { name: self.name@, pages: self.pages@ }
    }
}

/// The views of a list of categories.
pub open spec fn categories_view(s: Seq<NavCategory>) -> Seq<NavCategoryView> {
    s.map_values(|c: NavCategory| c@)
}

impl NavCategory {
    /// The first category, under the given (translated) name.
    pub fn essentials(name: String) -> (r: Self)
        ensures
            r.name == name,
            r.pages@ == essential_pages_view(),
    {
        NavCategory { name, pages: essential_pages() }
    }
}

/// Some category's name equals `name` but for the case of ASCII letters.
pub open spec fn has_name_like(cats: Seq<NavCategoryView>, name: Seq<char>) -> bool {
    exists|i: int| 0 <= i < cats.len() && lower_seq(#[trigger] cats[i].name) == lower_seq(name)
}

/// Whether some category's name, ASCII letters lowered, is `lowered`.
fn name_taken(categories: &Vec<NavCategory>, lowered: &Vec<char>) -> (r: bool)
    ensures
        r == exists|i: int| 0 <= i < categories@.len() && lower_seq(#[trigger] categories_view(categories@)[i].name) == lowered@,
{
    let ghost cats = categories_view(categories@);
    let n = categories.len();
    for i in 0..n
        invariant
            n == categories@.len(),
            cats == categories_view(categories@),
            forall|j: int| 0 <= j < i ==> lower_seq(#[trigger] cats[j].name) != lowered@,
    {
        let other = lower_exec(&chars_of(categories[i].name.as_str()));
        if seq_eq(&other, lowered) {
            assert(lower_seq(cats[i as int].name) == lowered@);
            return true;
        }
    }
    false
}

/// Adds a category named after `name` with its surrounding whitespace removed, unless
/// that leaves nothing or a category of that name (ignoring ASCII case) exists;
/// tells whether it added one.
pub fn create_nav_category(categories: &mut Vec<NavCategory>, name: &str) -> (r: bool)
    ensures
        r == (trim(name@).len() > 0 && !has_name_like(categories_view(old(categories)@), trim(name@))),
        r ==> categories_view(final(categories)@) == categories_view(old(categories)@).push(
            NavCategoryView { name: trim(name@), pages: Seq::empty() },
        ),
        !r ==> final(categories)@ == old(categories)@,
{
    let t = trim_exec(&chars_of(name));
    if t.len() == 0 {
        return false;
    }
    let lowered = lower_exec(&t);
    let ghost cats = categories_view(categories@);
    if name_taken(categories, &lowered) {
        return false;
    }
    categories.push(NavCategory { name: string_of(&t), pages: Vec::new() });
    assert(categories_view(categories@) =~= cats.push(NavCategoryView { name: t@, pages: Seq::empty() }));
    true
}

/// `i` is the first category named `name`.
pub open spec fn first_named(cats: Seq<NavCategoryView>, name: Seq<char>, i: int) -> bool {
    &&& 0 <= i < cats.len()
    &&& cats[i].name == name
    &&& forall|j: int| 0 <= j < i ==> #[trigger] cats[j].name != name
}

/// No category is named `name`.
pub open spec fn none_named(cats: Seq<NavCategoryView>, name: Seq<char>) -> bool {
    forall|j: int| 0 <= j < cats.len() ==> #[trigger] cats[j].name != name
}

/// The category with `page` added at the end, where it lacks it.
pub open spec fn with_page(c: NavCategoryView, page: Page) -> NavCategoryView {
    if c.pages.contains(page) {
        c
    } else {
        NavCategoryView { name: c.name, pages: c.pages.push(page) }
    }
}

/// `s` without any `x`.
pub open spec fn without_item<T>(s: Seq<T>, x: T) -> Seq<T>
    decreases s.len(),
{
    if s.len() == 0 {
        s
    } else if s.last() == x {
        without_item(s.drop_last(), x)
    } else {
        without_item(s.drop_last(), x).push(s.last())
    }
}

/// The position of the first category named `name`, where one is.
fn position_named(categories: &Vec<NavCategory>, name: &str) -> (r: Option<usize>)
    ensures
        match r {
            Some(i) => first_named(categories_view(categories@), name@, i as int),
            None => none_named(categories_view(categories@), name@),
        },
{
    let ghost cats = categories_view(categories@);
    let n = categories.len();
    for i in 0..n
        invariant
            n == categories@.len(),
            cats == categories_view(categories@),
            forall|j: int| 0 <= j < i ==> #[trigger] cats[j].name != name@,
    {
        if str_eq(categories[i].name.as_str(), name) {
            return Some(i);
        }
    }
    None
}

/// A copy of a list of pages.
fn copy_pages(pages: &Vec<Page>) -> (r: Vec<Page>)
    ensures
        r@ == pages@,
{
    let mut out: Vec<Page> = Vec::new();
    let n = pages.len();
    for i in 0..n
        invariant
            n == pages@.len(),
            out@ == pages@.take(i as int),
    {
        out.push(pages[i]);
        assert(out@ =~= pages@.take(i + 1));
    }
    assert(pages@.take(n as int) =~= pages@);
    out
}

/// Whether `pages` holds `page`.
fn holds_page(pages: &Vec<Page>, page: Page) -> (r: bool)
    ensures
        r == pages@.contains(page),
{
    let n = pages.len();
    for i in 0..n
        invariant
            n == pages@.len(),
            forall|j: int| 0 <= j < i ==> pages@[j] != page,
    {
        if pages[i] == page {
            assert(pages@[i as int] == page);
            return true;
        }
    }
    false
}

/// The first category named `name` is the only index `first_named` holds at.
proof fn lemma_first_named_unique(cats: Seq<NavCategoryView>, name: Seq<char>, i: int)
    requires
        first_named(cats, name, i),
    ensures
        forall|j: int| #[trigger] first_named(cats, name, j) ==> j == i,
{
    assert forall|j: int| #[trigger] first_named(cats, name, j) implies j == i by {
        if j < i {
            assert(cats[j].name == name);
        } else if j > i {
            assert(cats[i].name == name);
        }
    }
}

/// Adds `page` to the first category named `category_name`, where it lacks it.
pub fn add_page_to_nav(categories: &mut Vec<NavCategory>, category_name: &str, page: Page)
    ensures
        forall|i: int| #[trigger] first_named(categories_view(old(categories)@), category_name@, i)
            ==> categories_view(final(categories)@) == categories_view(old(categories)@).update(
                i,
                with_page(categories_view(old(categories)@)[i], page),
            ),
        none_named(categories_view(old(categories)@), category_name@) ==> final(categories)@ == old(
            categories,
        )@,
{
    let ghost cats = categories_view(categories@);
    match position_named(categories, category_name) {
        None => {},
        Some(i) => {
            proof {
                lemma_first_named_unique(cats, category_name@, i as int);
            }
            if holds_page(&categories[i].pages, page) {
                assert(cats.update(i as int, with_page(cats[i as int], page)) =~= cats);
                return;
            }
            let mut pages = copy_pages(&categories[i].pages);
            pages.push(page);
            let name = categories[i].name.clone();
            let _ = categories.set(i, NavCategory { name, pages });
            assert(categories_view(categories@) =~= cats.update(i as int, with_page(cats[i as int], page)));
        },
    }
}

/// `pages` without `page`.
fn remove_page(pages: &Vec<Page>, page: Page) -> (r: Vec<Page>)
    ensures
        r@ == without_item(pages@, page),
{
    let mut out: Vec<Page> = Vec::new();
    let n = pages.len();
    assert(pages@.take(0) =~= Seq::<Page>::empty());
    for i in 0..n
        invariant
            n == pages@.len(),
            out@ == without_item(pages@.take(i as int), page),
    {
        assert(pages@.take(i + 1).drop_last() =~= pages@.take(i as int));
        assert(pages@.take(i + 1).last() == pages@[i as int]);
        if pages[i] != page {
            out.push(pages[i]);
        }
    }
    assert(pages@.take(n as int) =~= pages@);
    out
}

/// Some category holds `page`.
pub open spec fn page_listed(cats: Seq<NavCategoryView>, page: Page) -> bool {
    exists|i: int| 0 <= i < cats.len() && #[trigger] cats[i].pages.contains(page)
}

/// Whether some category lists `page`.
fn page_is_listed(categories: &Vec<NavCategory>, page: Page) -> (r: bool)
    ensures
        r == page_listed(categories_view(categories@), page),
{
    let ghost cats = categories_view(categories@);
    let n = categories.len();
    for i in 0..n
        invariant
            n == categories@.len(),
            cats == categories_view(categories@),
            forall|j: int| 0 <= j < i ==> !(#[trigger] cats[j].pages.contains(page)),
    {
        if holds_page(&categories[i].pages, page) {
            assert(cats[i as int].pages.contains(page));
            return true;
        }
    }
    false
}

/// Takes `page` out of the first category named `category_name`; tells whether the
/// page the user is on (`current`) is that page and no category lists it any more,
/// in which case the user goes back to the dashboard.
pub fn remove_page_from_nav(categories: &mut Vec<NavCategory>, category_name: &str, page: Page, current: Page) -> (r: bool)
    ensures
        forall|i: int| #[trigger] first_named(categories_view(old(categories)@), category_name@, i)
            ==> categories_view(final(categories)@) == categories_view(old(categories)@).update(
                i,
                NavCategoryView {
                    name: categories_view(old(categories)@)[i].name,
                    pages: without_item(categories_view(old(categories)@)[i].pages, page),
                },
            ),
        none_named(categories_view(old(categories)@), category_name@) ==> final(categories)@ == old(
            categories,
        )@,
        r == (current == page && !page_listed(categories_view(final(categories)@), page)),
{
    let ghost cats = categories_view(categories@);
    match position_named(categories, category_name) {
        None => {},
        Some(i) => {
            proof {
                lemma_first_named_unique(cats, category_name@, i as int);
            }
            let pages = remove_page(&categories[i].pages, page);
            let name = categories[i].name.clone();
            let _ = categories.set(i, NavCategory { name, pages });
            assert(categories_view(categories@) =~= cats.update(
                i as int,
                NavCategoryView { name: cats[i as int].name, pages: without_item(cats[i as int].pages, page) },
            ));
        },
    }
    current == page && !page_is_listed(categories, page)
}

/// The row limit after scrolling near the end of a list of `total` rows: `None` where
/// every row already shows, else the limit grown by `increment`, at most `total`.
pub fn grown_limit(limit: usize, increment: usize, total: usize) -> (r: Option<usize>)
    ensures
        limit >= total ==> r is None,
        limit < total ==> r == Some(if limit + increment < total {
            (limit + increment) as usize
        } else {
            total
        }),
{
    if limit >= total {
        None
    } else if increment < total - limit {
        Some(limit + increment)
    } else {
        Some(total)
    }
}

/// `s` with every `x` taken out where it holds one, else with `x` added: a set's
/// toggle.
pub open spec fn toggled<T>(s: Seq<T>, x: T) -> Seq<T> {
    if s.contains(x) {
        without_item(s, x)
    } else {
        s.push(x)
    }
}

/// Collapses a section of the friends list, or expands it where it is collapsed.
pub fn toggle_section(sections: &mut Vec<FriendSection>, section: FriendSection)
    ensures
        final(sections)@ == toggled(old(sections)@, section),
{
    let ghost before = sections@;
    let mut out: Vec<FriendSection> = Vec::new();
    let mut found = false;
    let n = sections.len();
    assert(before.take(0) =~= Seq::<FriendSection>::empty());
    for i in 0..n
        invariant
            n == sections@.len(),
            before == sections@,
            found == before.take(i as int).contains(section),
            out@ == without_item(before.take(i as int), section),
    {
        proof {
            assert(before.take(i + 1).drop_last() =~= before.take(i as int));
            assert(before.take(i + 1).last() == before[i as int]);
        }
        let x = sections[i];
        if x == section {
            found = true;
            assert(before.take(i + 1)[i as int] == section);
        } else {
            out.push(x);
        }
        assert(found == before.take(i + 1).contains(section)) by {
            if before.take(i + 1).contains(section) && !found {
                let j = choose|j: int| 0 <= j < i + 1 && #[trigger] before.take(i + 1)[j] == section;
                assert(j != i);
                assert(before.take(i as int)[j] == section);
            }
        }
    }
    assert(before.take(n as int) =~= before);
    if !found {
        out.push(section);
        proof {
            lemma_without_absent(before, section);
        }
    }
    *sections = out;
}

/// Taking out an item a sequence lacks changes nothing.
proof fn lemma_without_absent<T>(s: Seq<T>, x: T)
    requires
        !s.contains(x),
    ensures
        without_item(s, x) == s,
    decreases s.len(),
{
    if s.len() > 0 {
        assert(!s.drop_last().contains(x)) by {
            if s.drop_last().contains(x) {
                let j = choose|j: int| 0 <= j < s.drop_last().len() && s.drop_last()[j] == x;
                assert(s[j] == x);
            }
        }
        lemma_without_absent(s.drop_last(), x);
        assert(s.last() != x);
        assert(s.drop_last().push(s.last()) =~= s);
    }
}

/// The audience of a notification rule: everyone.
pub fn select_everyone(rule: &mut EventRule)
    ensures
        final(rule)@ == (EventRuleView { selected_users: Seq::empty(), favorites_only: false, ..old(rule)@ }),
{
    rule.selected_users = Vec::new();
    rule.favorites_only = false;
    assert(strs(rule.selected_users@) =~= Seq::<Seq<char>>::empty());
}

/// The audience of a notification rule: favorites only.
pub fn select_favorites(rule: &mut EventRule)
    ensures
        final(rule)@ == (EventRuleView { selected_users: Seq::empty(), favorites_only: true, ..old(rule)@ }),
{
    rule.selected_users = Vec::new();
    rule.favorites_only = true;
    assert(strs(rule.selected_users@) =~= Seq::<Seq<char>>::empty());
}

/// Takes every `item` out of `names` where it holds one, else adds it: a set's toggle,
/// as for the collapsed categories of the sidebar.
pub fn toggle_name(names: &mut Vec<String>, item: String)
    ensures
        strs(final(names)@) == toggled(strs(old(names)@), item@),
{
    let ghost before = strs(names@);
    let mut out: Vec<String> = Vec::new();
    let mut found = false;
    let n = names.len();
    assert(before.take(0) =~= Seq::<Seq<char>>::empty());
    for i in 0..n
        invariant
            n == names@.len(),
            before == strs(names@),
            found == before.take(i as int).contains(item@),
            strs(out@) == without_item(before.take(i as int), item@),
    {
        proof {
            assert(before.take(i + 1).drop_last() =~= before.take(i as int));
            assert(before.take(i + 1).last() == before[i as int]);
        }
        let u = names[i].clone();
        if str_eq(u.as_str(), item.as_str()) {
            found = true;
            assert(before.take(i + 1)[i as int] == item@);
        } else {
            out.push(u);
            assert(strs(out@) =~= without_item(before.take(i as int), item@).push(before[i as int]));
        }
        assert(found == before.take(i + 1).contains(item@)) by {
            if before.take(i + 1).contains(item@) && !found {
                let j = choose|j: int| 0 <= j < i + 1 && #[trigger] before.take(i + 1)[j] == item@;
                assert(j != i);
                assert(before.take(i as int)[j] == item@);
            }
        }
    }
    assert(before.take(n as int) =~= before);
    if found {
        *names = out;
    } else {
        names.push(item);
        assert(strs(names@) =~= before.push(item@));
    }
}

/// Selects the user for a notification rule, or deselects a selected one; the rule
/// then no longer follows the favorites.
pub fn toggle_rule_user(rule: &mut EventRule, user_id: String)
    ensures
        final(rule)@ == (EventRuleView {
            selected_users: toggled(old(rule)@.selected_users, user_id@),
            favorites_only: false,
            ..old(rule)@
        }),
{
    toggle_name(&mut rule.selected_users, user_id);
    rule.favorites_only = false;
}

/// What a sequence with one more item at its end holds.
proof fn lemma_push_contains<T>(d: Seq<T>, l: T, y: T)
    ensures
        d.push(l).contains(y) == (d.contains(y) || l == y),
{
    if d.push(l).contains(y) {
        let j = choose|j: int| 0 <= j < d.push(l).len() && d.push(l)[j] == y;
        if j < d.len() {
            assert(d[j] == y);
        }
    }
    if d.contains(y) {
        let j = choose|j: int| 0 <= j < d.len() && d[j] == y;
        assert(d.push(l)[j] == y);
    }
    if l == y {
        assert(d.push(l)[d.len() as int] == y);
    }
}

/// Taking out `x` leaves everything else and no `x`.
proof fn lemma_without_contents<T>(s: Seq<T>, x: T)
    ensures
        forall|y: T| #[trigger] without_item(s, x).contains(y) == (s.contains(y) && y != x),
    decreases s.len(),
{
    if s.len() > 0 {
        let d = s.drop_last();
        let l = s.last();
        lemma_without_contents(d, x);
        assert(d.push(l) =~= s);
        assert(without_item(s, x) == if l == x {
            without_item(d, x)
        } else {
            without_item(d, x).push(l)
        });
        assert forall|y: T| #[trigger] without_item(s, x).contains(y) == (s.contains(y) && y != x) by {
            lemma_push_contains(d, l, y);
            assert(without_item(d, x).contains(y) == (d.contains(y) && y != x));
            if l != x {
                lemma_push_contains(without_item(d, x), l, y);
            }
        }
    }
}

/// Taking out `x` keeps items distinct.
proof fn lemma_without_distinct<T>(s: Seq<T>, x: T)
    requires
        s.no_duplicates(),
    ensures
        without_item(s, x).no_duplicates(),
    decreases s.len(),
{
    if s.len() > 0 {
        let d = s.drop_last();
        let l = s.last();
        assert(d.no_duplicates()) by {
            assert forall|i: int, j: int| 0 <= i < d.len() && 0 <= j < d.len() && i != j implies d[i] != d[j] by {
                assert(d[i] == s[i] && d[j] == s[j]);
            }
        }
        lemma_without_distinct(d, x);
        if l != x {
            lemma_without_contents(d, x);
            assert(!d.contains(l)) by {
                if d.contains(l) {
                    let k = choose|k: int| 0 <= k < d.len() && d[k] == l;
                    assert(s[k] == s[s.len() - 1]);
                }
            }
            let w = without_item(d, x);
            assert(!w.contains(l));
            assert forall|i: int, j: int| 0 <= i < w.push(l).len() && 0 <= j < w.push(l).len() && i != j implies w.push(l)[i]
                != w.push(l)[j] by {
                if i == w.len() as int {
                    assert(w.contains(w.push(l)[j]));
                } else if j == w.len() as int {
                    assert(w.contains(w.push(l)[i]));
                }
            }
        }
    }
}

/// Toggling keeps a list free of repeats: a notification rule's selected users, the
/// collapsed sections and the collapsed categories each hold an item at most once.
pub proof fn law_toggle_keeps_items_distinct<T>(s: Seq<T>, x: T)
    requires
        s.no_duplicates(),
    ensures
        toggled(s, x).no_duplicates(),
{
    if s.contains(x) {
        lemma_without_distinct(s, x);
    } else {
        assert forall|i: int, j: int| 0 <= i < s.push(x).len() && 0 <= j < s.push(x).len() && i != j implies s.push(x)[i]
            != s.push(x)[j] by {
            if i == s.len() as int {
                assert(s.contains(s.push(x)[j]) || j == s.len() as int);
            } else if j == s.len() as int {
                assert(s[i] == s.push(x)[i]);
            }
        }
    }
}

/// Toggling twice gives back the set one started with: collapsing a section and
/// expanding it again, or selecting a user and deselecting them.
pub proof fn law_toggle_twice_restores<T>(s: Seq<T>, x: T)
    ensures
        toggled(toggled(s, x), x).to_set() == s.to_set(),
{
    lemma_without_contents(s, x);
    let once = toggled(s, x);
    if s.contains(x) {
        assert(!once.contains(x));
        assert(toggled(once, x) == once.push(x));
        assert forall|y: T| #[trigger] once.push(x).to_set().contains(y) == s.to_set().contains(y) by {
            if once.push(x).contains(y) {
                let j = choose|j: int| 0 <= j < once.push(x).len() && once.push(x)[j] == y;
                if j < once.len() {
                    assert(once[j] == y);
                    assert(once.contains(y));
                }
            }
            if s.contains(y) {
                if y == x {
                    assert(once.push(x)[once.len() as int] == y);
                } else {
                    assert(once.contains(y));
                    let j = choose|j: int| 0 <= j < once.len() && once[j] == y;
                    assert(once.push(x)[j] == y);
                }
            }
        }
        assert(toggled(once, x).to_set() =~= s.to_set());
    } else {
        assert(once == s.push(x));
        assert(once.contains(x)) by {
            assert(s.push(x)[s.len() as int] == x);
        }
        lemma_without_contents(once, x);
        assert forall|y: T| #[trigger] without_item(once, x).to_set().contains(y) == s.to_set().contains(y) by {
            if s.contains(y) {
                let j = choose|j: int| 0 <= j < s.len() && s[j] == y;
                assert(once[j] == y);
            }
            if once.contains(y) && y != x {
                let j = choose|j: int| 0 <= j < once.len() && once[j] == y;
                assert(j < s.len());
                assert(s[j] == y);
            }
        }
        assert(toggled(once, x).to_set() =~= s.to_set());
    }
}

/// No two categories share a name but for the case of ASCII letters.
pub open spec fn names_distinct(cats: Seq<NavCategoryView>) -> bool {
    forall|i: int, j: int|
        0 <= i < cats.len() && 0 <= j < cats.len() && i != j ==> lower_seq(#[trigger] cats[i].name)
            != lower_seq(#[trigger] cats[j].name)
}

/// Creating categories keeps their names distinct, ignoring ASCII case.
pub proof fn law_category_names_stay_distinct(cats: Seq<NavCategoryView>, name: Seq<char>)
    requires
        names_distinct(cats),
    ensures
        !has_name_like(cats, trim(name)) ==> names_distinct(
            cats.push(NavCategoryView { name: trim(name), pages: Seq::empty() }),
        ),
{
    let next = cats.push(NavCategoryView { name: trim(name), pages: Seq::empty() });
    if !has_name_like(cats, trim(name)) {
        assert forall|i: int, j: int|
            0 <= i < next.len() && 0 <= j < next.len() && i != j implies lower_seq(#[trigger] next[i].name)
                != lower_seq(#[trigger] next[j].name) by {
            if i < cats.len() && j < cats.len() {
                assert(next[i] == cats[i] && next[j] == cats[j]);
            } else if i < cats.len() {
                assert(next[i] == cats[i]);
            } else {
                assert(next[j] == cats[j]);
            }
        }
    }
}

} // verus!
