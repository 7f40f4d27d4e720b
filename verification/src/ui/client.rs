//! The client's message handler: from the state the interface shows and one message
//! (a click, a typed value, or the outcome of earlier work), the next state and the
//! outside work to do next, in order. The data the work brings back (results, details,
//! thumbnails, the snapshot) is kept by the caller; this state holds what the
//! decisions read.
use vstd::prelude::*;
use crate::decode::opt_str;
use crate::screen_overlay::config::{EventRule, EventRuleView};
use crate::session::auth::{TwoFactorMethod, TwoFactorMethodView};
use crate::text::{decimal, is_blank, is_blank_str, owned, strs, trim, u64_text, concat};
use crate::ui::friends::FriendSection;
use crate::ui::navigation::{
    add_page_to_nav, categories_view, create_nav_category, first_named, has_name_like, none_named,
    page_listed, remove_page_from_nav, select_everyone, select_favorites, toggle_name,
    toggle_rule_user, toggle_section, toggled, with_page, without_item, NavCategory, NavCategoryView,
};
use crate::ui::pages::{searchable, Locale, Page};

verus! {

/// The rows a list of results shows at first, and how many more each scroll shows.
pub const INITIAL_RESOURCE_ROWS: usize = 28;
pub const RESOURCE_ROW_INCREMENT: usize = 28;
/// The rows a list of relations shows at first, and how many more each scroll shows.
pub const INITIAL_RELATION_ROWS: usize = 32;
pub const RELATION_ROW_INCREMENT: usize = 32;

/// A tab of the detail view.
#[derive(Debug, Clone, Copy, PartialEq, Eq, Structural)]
pub enum DetailTab {
    Overview,
    MutualFriends,
    MutualGroups,
    Groups,
    FriendGroups,
}

/// How a sign-in attempt ended.
#[derive(Debug, Clone, PartialEq, Eq)]
pub enum LoginOutcome {
    Authenticated,
    TwoFactorRequired(Vec<TwoFactorMethod>),
    InvalidCredentials,
}

/// A change to the notification rule being edited.
#[derive(Debug, Clone, PartialEq, Eq)]
pub enum RuleEdit {
    ToggleEnabled,
    Title(String),
    Body(String),
    Accent(String),
    ToggleProfilePicture,
    ToggleWorldPicture,
    Everyone,
    Favorites,
    ToggleUser(String),
}

/// The abstract value of a [`RuleEdit`].
pub enum RuleEditView {
    ToggleEnabled,
    Title(Seq<char>),
    Body(Seq<char>),
    Accent(Seq<char>),
    ToggleProfilePicture,
    ToggleWorldPicture,
    Everyone,
    Favorites,
    ToggleUser(Seq<char>),
}

impl View for RuleEdit {
    type V = RuleEditView;

    open spec fn view(&self) -> RuleEditView {
        match self {
            RuleEdit::ToggleEnabled => RuleEditView::ToggleEnabled,
            RuleEdit::Title(t) => RuleEditView::Title(t@),
            RuleEdit::Body(t) => RuleEditView::Body(t@),
            RuleEdit::Accent(t) => RuleEditView::Accent(t@),
            RuleEdit::ToggleProfilePicture => RuleEditView::ToggleProfilePicture,
            RuleEdit::ToggleWorldPicture => RuleEditView::ToggleWorldPicture,
            RuleEdit::Everyone => RuleEditView::Everyone,
            RuleEdit::Favorites => RuleEditView::Favorites,
            RuleEdit::ToggleUser(u) => RuleEditView::ToggleUser(u@),
        }
    }
}

/// The rule after an edit.
pub open spec fn edited_rule(r: EventRuleView, e: RuleEditView) -> EventRuleView {
    match e {
        RuleEditView::ToggleEnabled => EventRuleView { enabled: !r.enabled, ..r },
        RuleEditView::Title(t) => EventRuleView { title: t, ..r },
        RuleEditView::Body(t) => EventRuleView { body: t, ..r },
        RuleEditView::Accent(t) => EventRuleView { accent: t, ..r },
        RuleEditView::ToggleProfilePicture => EventRuleView { show_profile_picture: !r.show_profile_picture, ..r },
        RuleEditView::ToggleWorldPicture => EventRuleView { show_world_picture: !r.show_world_picture, ..r },
        RuleEditView::Everyone => EventRuleView { selected_users: Seq::empty(), favorites_only: false, ..r },
        RuleEditView::Favorites => EventRuleView { selected_users: Seq::empty(), favorites_only: true, ..r },
        RuleEditView::ToggleUser(u) => EventRuleView {
            selected_users: toggled(r.selected_users, u),
            favorites_only: false,
            ..r
        },
    }
}

/// Applies an edit to a notification rule.
pub fn apply_rule_edit(rule: &mut EventRule, edit: RuleEdit)
    ensures
        final(rule)@ == edited_rule(old(rule)@, edit@),
{
    match edit {
        RuleEdit::ToggleEnabled => rule.enabled = !rule.enabled,
        RuleEdit::Title(t) => rule.title = t,
        RuleEdit::Body(t) => rule.body = t,
        RuleEdit::Accent(t) => rule.accent = t,
        RuleEdit::ToggleProfilePicture => rule.show_profile_picture = !rule.show_profile_picture,
        RuleEdit::ToggleWorldPicture => rule.show_world_picture = !rule.show_world_picture,
        RuleEdit::Everyone => select_everyone(rule),
        RuleEdit::Favorites => select_favorites(rule),
        RuleEdit::ToggleUser(u) => toggle_rule_user(rule, u),
    }
}

/// Where the detail of a selected item comes from.
#[derive(Debug, Clone, Copy, PartialEq, Eq, Structural)]
pub enum DetailSource {
    User,
    Avatar,
    Group,
    World,
    /// The record the list already holds.
    Listed,
}

/// Where the detail of an item opened from the list of `page` comes from.
pub open spec fn item_source(page: Page) -> DetailSource {
    match page {
        Page::Users => DetailSource::User,
        Page::Avatars | Page::MyAvatars => DetailSource::Avatar,
        Page::Groups => DetailSource::Group,
        Page::Worlds => DetailSource::World,
        _ => DetailSource::Listed,
    }
}

/// Where the detail of a related item of kind `page` comes from.
pub open spec fn related_source(page: Page) -> DetailSource {
    match page {
        Page::Users | Page::Friends => DetailSource::User,
        Page::Groups => DetailSource::Group,
        _ => DetailSource::Listed,
    }
}

fn item_source_exec(page: Page) -> (r: DetailSource)
    ensures
        r == item_source(page),
{
    match page {
        Page::Users => DetailSource::User,
        Page::Avatars | Page::MyAvatars => DetailSource::Avatar,
        Page::Groups => DetailSource::Group,
        Page::Worlds => DetailSource::World,
        _ => DetailSource::Listed,
    }
}

fn related_source_exec(page: Page) -> (r: DetailSource)
    ensures
        r == related_source(page),
{
    match page {
        Page::Users | Page::Friends => DetailSource::User,
        Page::Groups => DetailSource::Group,
        _ => DetailSource::Listed,
    }
}

/// A message the client handles.
#[derive(Debug, PartialEq, Eq)]
pub enum Message {
    ToggleScreenOverlay,
    ReloadScreenOverlay,
    TestScreenOverlay,
    SelectOverlayRule(String),
    EditOverlayRule(RuleEdit),
    SaveScreenOverlayEditor,
    OverlayConfigSaved(Result<(), String>),
    /// The saved sessions were read; `Ok(true)` where one was restored.
    BootFinished(Result<bool, String>),
    UsernameChanged(String),
    PasswordChanged(String),
    Login,
    LoginFinished(Result<LoginOutcome, String>),
    TwoFactorCodeChanged(String),
    SelectTwoFactor(TwoFactorMethod),
    VerifyTwoFactor,
    Logout,
    LogoutFinished(Result<(), String>),
    Navigate(Page),
    SearchChanged(String),
    SubmitSearch,
    SearchPage(Page),
    CloseSearchOverlay,
    Refresh,
    /// A page of results came in; `Ok` holds how many.
    ResultsLoaded(Result<usize, String>),
    FavoriteFriendsLoaded(Result<(), String>),
    ToggleFriendSection(FriendSection),
    /// The list of results was scrolled; `at_end` where it came near its end.
    ResourceScrolled { at_end: bool },
    /// The list of relations was scrolled; `total` is how many the open tab holds.
    RelationScrolled { at_end: bool, total: usize },
    ToggleNavCategory(String),
    OpenPanelSelector,
    ClosePanelSelector,
    ToggleNavEditMode,
    ToggleAccountMenu,
    CloseAccountMenu,
    OpenSettings,
    CloseSettings,
    SavedSessionsLoaded(Result<(), String>),
    AddSession,
    AddSessionFinished(Result<(), String>),
    SwitchSession(String),
    /// A session switch ended; `Ok(false)` where the session was not found.
    SwitchSessionFinished(Result<bool, String>),
    LocaleSelected(Locale),
    NewCategoryNameChanged(String),
    CreateNavCategory,
    AddPageToNav(String, Page),
    RemovePageFromNav(String, Page),
    OpenItem(usize),
    /// A friend was opened; `known` where the snapshot holds them.
    OpenFriend { user_id: String, known: bool },
    /// An item related to the open one was opened; it is of the kind of `page`.
    OpenRelated(Page),
    CloseItem,
    DetailLoaded(Result<(), String>),
    DetailTabSelected(DetailTab),
    UserRelationsLoaded(Result<(), String>),
    Synchronize,
    SynchronizeFinished(Result<(), String>),
    Unfriend(String),
    LeaveGroup(String),
    RemoveFavorite(String),
    DeleteNotification(String),
    ResourceAction(Page, String),
    ApiMethodChanged(String),
    ApiPathChanged(String),
    ApiBodyChanged(String),
    ExecuteApi,
    ApiExecuted(Result<(), String>),
    ActionFinished(Result<String, String>),
    ClearFeedback,
}

/// Outside work the client asks for.
#[derive(Debug, Clone, PartialEq, Eq)]
pub enum Action {
    /// Reads the saved sessions and restores the only one, where there is exactly one.
    Boot,
    Login { username: String, password: String },
    VerifyTwoFactor { method: TwoFactorMethod, code: String },
    Logout,
    BeginNewSession,
    SwitchSession(String),
    Synchronize,
    LoadPage { page: Page, query: String },
    LoadFriendFavorites,
    LoadSavedSessions,
    LoadMissingThumbnails,
    PruneThumbnails,
    ResetFriendSectionRows,
    ClearResults,
    /// Forgets the selected item and its detail.
    ClearSelection,
    /// Forgets the relations of the selected user.
    ResetRelations,
    ForgetSnapshot,
    ForgetThumbnails,
    ForgetFavorites,
    /// Selects the result at the index, with its record as its detail.
    SelectResult(usize),
    /// Selects the friend of the snapshot, with their record as their detail.
    SelectFriend(String),
    /// Selects the related item the message came with.
    SelectRelated,
    LoadSelectedDetail(DetailSource),
    LoadSelectedRelations,
    ToggleOverlayEnabled,
    ReloadOverlay,
    ResetOverlay,
    CloseOverlayWindow,
    PreviewOverlay(String),
    /// Shows the duration and opacity of the rule in the editor.
    ShowRuleSettings(String),
    EditOverlayRule { rule: String, edit: RuleEdit },
    SaveOverlayConfig,
    SetLocale(Locale),
    Unfriend(String),
    LeaveGroup(String),
    RemoveFavorite(String),
    DeleteNotification(String),
    ResourceAction(Page, String),
    ExecuteApi { method: String, path: String, body: String },
}

/// The abstract value of an [`Action`].
pub enum ActionView {
    Boot,
    Login { username: Seq<char>, password: Seq<char> },
    VerifyTwoFactor { method: TwoFactorMethodView, code: Seq<char> },
    Logout,
    BeginNewSession,
    SwitchSession(Seq<char>),
    Synchronize,
    LoadPage { page: Page, query: Seq<char> },
    LoadFriendFavorites,
    LoadSavedSessions,
    LoadMissingThumbnails,
    PruneThumbnails,
    ResetFriendSectionRows,
    ClearResults,
    ClearSelection,
    ResetRelations,
    ForgetSnapshot,
    ForgetThumbnails,
    ForgetFavorites,
    SelectResult(usize),
    SelectFriend(Seq<char>),
    SelectRelated,
    LoadSelectedDetail(DetailSource),
    LoadSelectedRelations,
    ToggleOverlayEnabled,
    ReloadOverlay,
    ResetOverlay,
    CloseOverlayWindow,
    PreviewOverlay(Seq<char>),
    ShowRuleSettings(Seq<char>),
    EditOverlayRule { rule: Seq<char>, edit: RuleEditView },
    SaveOverlayConfig,
    SetLocale(Locale),
    Unfriend(Seq<char>),
    LeaveGroup(Seq<char>),
    RemoveFavorite(Seq<char>),
    DeleteNotification(Seq<char>),
    ResourceAction(Page, Seq<char>),
    ExecuteApi { method: Seq<char>, path: Seq<char>, body: Seq<char> },
}

impl View for Action {
    type V = ActionView;

    open spec fn view(&self) -> ActionView {
        match self {
            Action::Boot => ActionView::Boot,
            Action::Login { username, password } => ActionView::Login { username: username@, password: password@ },
            Action::VerifyTwoFactor { method, code } => ActionView::VerifyTwoFactor { method: method@, code: code@ },
            Action::Logout => ActionView::Logout,
            Action::BeginNewSession => ActionView::BeginNewSession,
            Action::SwitchSession(u) => ActionView::SwitchSession(u@),
            Action::Synchronize => ActionView::Synchronize,
            Action::LoadPage { page, query } => ActionView::LoadPage { page: *page, query: query@ },
            Action::LoadFriendFavorites => ActionView::LoadFriendFavorites,
            Action::LoadSavedSessions => ActionView::LoadSavedSessions,
            Action::LoadMissingThumbnails => ActionView::LoadMissingThumbnails,
            Action::PruneThumbnails => ActionView::PruneThumbnails,
            Action::ResetFriendSectionRows => ActionView::ResetFriendSectionRows,
            Action::ClearResults => ActionView::ClearResults,
            Action::ClearSelection => ActionView::ClearSelection,
            Action::ResetRelations => ActionView::ResetRelations,
            Action::ForgetSnapshot => ActionView::ForgetSnapshot,
            Action::ForgetThumbnails => ActionView::ForgetThumbnails,
            Action::ForgetFavorites => ActionView::ForgetFavorites,
            Action::SelectResult(i) => ActionView::SelectResult(*i),
            Action::SelectFriend(u) => ActionView::SelectFriend(u@),
            Action::SelectRelated => ActionView::SelectRelated,
            Action::LoadSelectedDetail(s) => ActionView::LoadSelectedDetail(*s),
            Action::LoadSelectedRelations => ActionView::LoadSelectedRelations,
            Action::ToggleOverlayEnabled => ActionView::ToggleOverlayEnabled,
            Action::ReloadOverlay => ActionView::ReloadOverlay,
            Action::ResetOverlay => ActionView::ResetOverlay,
            Action::CloseOverlayWindow => ActionView::CloseOverlayWindow,
            Action::PreviewOverlay(r) => ActionView::PreviewOverlay(r@),
            Action::ShowRuleSettings(r) => ActionView::ShowRuleSettings(r@),
            Action::EditOverlayRule { rule, edit } => ActionView::EditOverlayRule { rule: rule@, edit: edit@ },
            Action::SaveOverlayConfig => ActionView::SaveOverlayConfig,
            Action::SetLocale(l) => ActionView::SetLocale(*l),
            Action::Unfriend(u) => ActionView::Unfriend(u@),
            Action::LeaveGroup(g) => ActionView::LeaveGroup(g@),
            Action::RemoveFavorite(f) => ActionView::RemoveFavorite(f@),
            Action::DeleteNotification(n) => ActionView::DeleteNotification(n@),
            Action::ResourceAction(p, id) => ActionView::ResourceAction(*p, id@),
            Action::ExecuteApi { method, path, body } => ActionView::ExecuteApi {
                method: method@,
                path: path@,
                body: body@,
            },
        }
    }
}

/// The views of a list of actions.
pub open spec fn actions_view(s: Seq<Action>) -> Seq<ActionView> {
    s.map_values(|a: Action| a@)
}

/// The views of a list of two-factor methods.
pub open spec fn methods_view(s: Seq<TwoFactorMethod>) -> Seq<TwoFactorMethodView> {
    s.map_values(|m: TwoFactorMethod| m@)
}

/// What the client's decisions read and change.
#[derive(Debug)]
pub struct ClientState {
    pub page: Page,
    /// The page the open item was opened from.
    pub selected_page: Page,
    pub search: String,
    pub search_overlay_open: bool,
    /// Whether the backend opened, so that outside work can be done at all.
    pub has_backend: bool,
    pub signed_in: bool,
    pub username: String,
    pub password: String,
    pub two_factor_code: String,
    pub two_factor_methods: Vec<TwoFactorMethod>,
    pub selected_two_factor: Option<TwoFactorMethod>,
    /// How many results the list holds.
    pub result_count: usize,
    /// Whether an item is open.
    pub item_open: bool,
    pub detail_tab: DetailTab,
    pub detail_loading: bool,
    pub relations_loading: bool,
    pub resource_row_limit: usize,
    pub relation_row_limit: usize,
    pub collapsed_friend_sections: Vec<FriendSection>,
    pub collapsed_nav_categories: Vec<String>,
    pub nav_categories: Vec<NavCategory>,
    pub new_category_name: String,
    pub panel_selector_open: bool,
    pub settings_open: bool,
    pub nav_edit_mode: bool,
    pub account_menu_open: bool,
    pub locale: Locale,
    pub loading: bool,
    /// The error shown; a translated message is held as its translation key.
    pub error: Option<String>,
    /// The notice shown; a translated message is held as its translation key.
    pub notice: Option<String>,
    /// The event whose notification rule the editor shows.
    pub overlay_editor_rule: String,
    pub api_method: String,
    pub api_path: String,
    pub api_body: String,
}

/// The abstract value of a [`ClientState`].
pub struct ClientStateView {
    pub page: Page,
    pub selected_page: Page,
    pub search: Seq<char>,
    pub search_overlay_open: bool,
    pub has_backend: bool,
    pub signed_in: bool,
    pub username: Seq<char>,
    pub password: Seq<char>,
    pub two_factor_code: Seq<char>,
    pub two_factor_methods: Seq<TwoFactorMethodView>,
    pub selected_two_factor: Option<TwoFactorMethodView>,
    pub result_count: usize,
    pub item_open: bool,
    pub detail_tab: DetailTab,
    pub detail_loading: bool,
    pub relations_loading: bool,
    pub resource_row_limit: usize,
    pub relation_row_limit: usize,
    pub collapsed_friend_sections: Seq<FriendSection>,
    pub collapsed_nav_categories: Seq<Seq<char>>,
    pub nav_categories: Seq<NavCategoryView>,
    pub new_category_name: Seq<char>,
    pub panel_selector_open: bool,
    pub settings_open: bool,
    pub nav_edit_mode: bool,
    pub account_menu_open: bool,
    pub locale: Locale,
    pub loading: bool,
    pub error: Option<Seq<char>>,
    pub notice: Option<Seq<char>>,
    pub overlay_editor_rule: Seq<char>,
    pub api_method: Seq<char>,
    pub api_path: Seq<char>,
    pub api_body: Seq<char>,
}

/// The view of an optional two-factor method.
pub open spec fn method_view(m: Option<TwoFactorMethod>) -> Option<TwoFactorMethodView> {
    match m {
        Some(x) => Some(x@),
        None => None,
    }
}

impl View for ClientState {
    type V = ClientStateView;

    open spec fn view(&self) -> ClientStateView {
        ClientStateView {
            page: self.page,
            selected_page: self.selected_page,
            search: self.search@,
            search_overlay_open: self.search_overlay_open,
            has_backend: self.has_backend,
            signed_in: self.signed_in,
            username: self.username@,
            password: self.password@,
            two_factor_code: self.two_factor_code@,
            two_factor_methods: methods_view(self.two_factor_methods@),
            selected_two_factor: method_view(self.selected_two_factor),
            result_count: self.result_count,
            item_open: self.item_open,
            detail_tab: self.detail_tab,
            detail_loading: self.detail_loading,
            relations_loading: self.relations_loading,
            resource_row_limit: self.resource_row_limit,
            relation_row_limit: self.relation_row_limit,
            collapsed_friend_sections: self.collapsed_friend_sections@,
            collapsed_nav_categories: strs(self.collapsed_nav_categories@),
            nav_categories: categories_view(self.nav_categories@),
            new_category_name: self.new_category_name@,
            panel_selector_open: self.panel_selector_open,
            settings_open: self.settings_open,
            nav_edit_mode: self.nav_edit_mode,
            account_menu_open: self.account_menu_open,
            locale: self.locale,
            loading: self.loading,
            error: opt_str(self.error),
            notice: opt_str(self.notice),
            overlay_editor_rule: self.overlay_editor_rule@,
            api_method: self.api_method@,
            api_path: self.api_path@,
            api_body: self.api_body@,
        }
    }
}

// ---------------------------------------------------------------------------
// What each message does
// ---------------------------------------------------------------------------

/// `a`, where the backend opened; nothing otherwise.
pub open spec fn with_backend(s: ClientStateView, a: ActionView) -> Seq<ActionView> {
    if s.has_backend {
        seq![a]
    } else {
        Seq::empty()
    }
}

/// Loading the current page: busy, and the request for the page with the search text.
pub open spec fn page_load(s: ClientStateView) -> (ClientStateView, Seq<ActionView>) {
    if s.has_backend {
        (ClientStateView { loading: true, ..s }, seq![ActionView::LoadPage { page: s.page, query: s.search }])
    } else {
        (s, Seq::empty())
    }
}

/// The lists back at their first rows.
pub open spec fn windows_reset(s: ClientStateView) -> ClientStateView {
    ClientStateView { resource_row_limit: INITIAL_RESOURCE_ROWS, relation_row_limit: INITIAL_RELATION_ROWS, ..s }
}

/// The work that follows a sign-in: the favorite friends and saved sessions, where the
/// backend opened, then the thumbnails.
pub open spec fn signed_in_work(s: ClientStateView) -> Seq<ActionView> {
    with_backend(s, ActionView::LoadFriendFavorites) + with_backend(s, ActionView::LoadSavedSessions)
        + seq![ActionView::LoadMissingThumbnails]
}

/// Going to `page` from the search or the sidebar: the list and the open item are
/// dropped, the lists start over, and the page loads.
pub open spec fn went_to(s: ClientStateView, page: Page) -> (ClientStateView, Seq<ActionView>) {
    let t = windows_reset(ClientStateView {
        page,
        search_overlay_open: false,
        result_count: 0,
        item_open: false,
        error: None,
        ..s
    });
    let (u, load) = page_load(t);
    (u, seq![
        ActionView::ClearResults,
        ActionView::ClearSelection,
        ActionView::ResetRelations,
        ActionView::ResetFriendSectionRows,
        ActionView::PruneThumbnails,
    ] + load)
}

/// The work a refresh of the current page calls for, with the favorite friends on the
/// friends page.
pub open spec fn refreshed(s: ClientStateView) -> (ClientStateView, Seq<ActionView>) {
    let (u, load) = page_load(windows_reset(s));
    (u, seq![ActionView::ResetFriendSectionRows, ActionView::PruneThumbnails] + load + if s.page == Page::Friends {
        with_backend(s, ActionView::LoadFriendFavorites)
    } else {
        Seq::empty()
    })
}

/// Leaving an account: no session, no results, no open item, no two-factor methods.
pub open spec fn signed_out(s: ClientStateView) -> ClientStateView {
    ClientStateView {
        loading: false,
        signed_in: false,
        result_count: 0,
        item_open: false,
        two_factor_methods: Seq::empty(),
        ..s
    }
}

/// The error of a failed outcome, shown.
pub open spec fn failed(s: ClientStateView, e: Seq<char>) -> ClientStateView {
    ClientStateView { error: Some(e), ..s }
}

/// The categories with `page` added to the first one named `name`.
pub open spec fn nav_with_page(cats: Seq<NavCategoryView>, name: Seq<char>, page: Page) -> Seq<NavCategoryView> {
    if none_named(cats, name) {
        cats
    } else {
        let i = choose|i: int| first_named(cats, name, i);
        cats.update(i, with_page(cats[i], page))
    }
}

/// The categories with `page` taken out of the first one named `name`.
pub open spec fn nav_without_page(cats: Seq<NavCategoryView>, name: Seq<char>, page: Page) -> Seq<NavCategoryView> {
    if none_named(cats, name) {
        cats
    } else {
        let i = choose|i: int| first_named(cats, name, i);
        cats.update(i, NavCategoryView { name: cats[i].name, pages: without_item(cats[i].pages, page) })
    }
}

/// The row limit after scrolling near the end of a list of `total` rows.
pub open spec fn grown(limit: usize, increment: usize, total: usize) -> usize {
    if limit + increment < total {
        (limit + increment) as usize
    } else {
        total
    }
}

/// What [`Message::ToggleScreenOverlay`] does.
pub open spec fn after_toggle_screen_overlay(s: ClientStateView) -> (ClientStateView, Seq<ActionView>) {
    (s, seq![ActionView::ToggleOverlayEnabled])
}

/// What [`Message::ReloadScreenOverlay`] does.
pub open spec fn after_reload_screen_overlay(s: ClientStateView) -> (ClientStateView, Seq<ActionView>) {
    (
        ClientStateView { notice: Some("screen_overlay.reloaded"@), ..s },
        seq![ActionView::ReloadOverlay, ActionView::ShowRuleSettings(s.overlay_editor_rule), ActionView::CloseOverlayWindow],
    )
}

/// What [`Message::TestScreenOverlay`] does.
pub open spec fn after_test_screen_overlay(s: ClientStateView) -> (ClientStateView, Seq<ActionView>) {
    (s, seq![ActionView::PreviewOverlay(s.overlay_editor_rule)])
}

/// What [`Message::SelectOverlayRule`] does.
pub open spec fn after_select_overlay_rule(s: ClientStateView, e: String) -> (ClientStateView, Seq<ActionView>) {
    (
        ClientStateView { overlay_editor_rule: e@, ..s },
        seq![ActionView::ShowRuleSettings(e@)],
    )
}

/// What [`Message::EditOverlayRule`] does.
pub open spec fn after_edit_overlay_rule(s: ClientStateView, edit: RuleEdit) -> (ClientStateView, Seq<ActionView>) {
    (
        s,
        seq![ActionView::EditOverlayRule { rule: s.overlay_editor_rule, edit: edit@ }],
    )
}

/// What [`Message::SaveScreenOverlayEditor`] does.
pub open spec fn after_save_screen_overlay_editor(s: ClientStateView) -> (ClientStateView, Seq<ActionView>) {
    (s, seq![ActionView::SaveOverlayConfig])
}

/// What [`Message::OverlayConfigSaved`] does.
pub open spec fn after_overlay_config_saved(s: ClientStateView, r: Result<(), String>) -> (ClientStateView, Seq<ActionView>) {
    match r {
        Ok(_) => (ClientStateView { notice: Some("screen_overlay.saved"@), ..s }, Seq::empty()),
        Err(e) => (failed(s, e@), Seq::empty()),
    }
}

/// What [`Message::BootFinished`] does.
pub open spec fn after_boot_finished(s: ClientStateView, r: Result<bool, String>) -> (ClientStateView, Seq<ActionView>) {
    let t = ClientStateView { loading: false, ..s };
    match r {
        Ok(restored) => {
            let u = ClientStateView { signed_in: restored, ..t };
            if restored {
                (u, signed_in_work(u))
            } else {
                (u, seq![ActionView::LoadMissingThumbnails])
            }
        },
        Err(e) => (failed(t, e@), Seq::empty()),
    }
}

/// What [`Message::UsernameChanged`] does.
pub open spec fn after_username_changed(s: ClientStateView, v: String) -> (ClientStateView, Seq<ActionView>) {
    (ClientStateView { username: v@, ..s }, Seq::empty())
}

/// What [`Message::PasswordChanged`] does.
pub open spec fn after_password_changed(s: ClientStateView, v: String) -> (ClientStateView, Seq<ActionView>) {
    (ClientStateView { password: v@, ..s }, Seq::empty())
}

/// What [`Message::Login`] does.
pub open spec fn after_login(s: ClientStateView) -> (ClientStateView, Seq<ActionView>) {
    if s.has_backend {
        (
            ClientStateView { loading: true, error: None, ..s },
            seq![ActionView::Login { username: s.username, password: s.password }],
        )
    } else {
        (s, Seq::empty())
    }
}

/// What a finished sign-in attempt leads to.
pub open spec fn login_outcome(t: ClientStateView, o: LoginOutcome) -> (ClientStateView, Seq<ActionView>) {
    match o {
        LoginOutcome::Authenticated => {
            let u = ClientStateView { signed_in: true, password: Seq::empty(), ..t };
            (u, signed_in_work(u))
        },
        LoginOutcome::TwoFactorRequired(methods) => (
            ClientStateView {
                selected_two_factor: if methods@.len() > 0 {
                    Some(methods@[0]@)
                } else {
                    None
                },
                two_factor_methods: methods_view(methods@),
                ..t
            },
            Seq::empty(),
        ),
        LoginOutcome::InvalidCredentials => (failed(t, "Invalid credentials"@), Seq::empty()),
    }
}

/// What [`Message::LoginFinished`] does.
pub open spec fn after_login_finished(s: ClientStateView, r: Result<LoginOutcome, String>) -> (ClientStateView, Seq<ActionView>) {
    let t = ClientStateView { loading: false, ..s };
    match r {
        Ok(o) => login_outcome(t, o),
        Err(e) => (failed(t, e@), Seq::empty()),
    }
}

/// What [`Message::TwoFactorCodeChanged`] does.
pub open spec fn after_two_factor_code_changed(s: ClientStateView, v: String) -> (ClientStateView, Seq<ActionView>) {
    (ClientStateView { two_factor_code: v@, ..s }, Seq::empty())
}

/// What [`Message::SelectTwoFactor`] does.
pub open spec fn after_select_two_factor(s: ClientStateView, method: TwoFactorMethod) -> (ClientStateView, Seq<ActionView>) {
    (ClientStateView { selected_two_factor: Some(method@), ..s }, Seq::empty())
}

/// What [`Message::VerifyTwoFactor`] does.
pub open spec fn after_verify_two_factor(s: ClientStateView) -> (ClientStateView, Seq<ActionView>) {
    match s.selected_two_factor {
        Some(method) => if s.has_backend {
            (
                ClientStateView { loading: true, ..s },
                seq![ActionView::VerifyTwoFactor { method, code: s.two_factor_code }],
            )
        } else {
            (s, Seq::empty())
        },
        None => (s, Seq::empty()),
    }
}

/// What [`Message::Logout`] does.
pub open spec fn after_logout(s: ClientStateView) -> (ClientStateView, Seq<ActionView>) {
    if s.has_backend {
        (ClientStateView { account_menu_open: false, loading: true, ..s }, seq![ActionView::Logout])
    } else {
        (s, Seq::empty())
    }
}

/// What [`Message::LogoutFinished`] does.
pub open spec fn after_logout_finished(s: ClientStateView, r: Result<(), String>) -> (ClientStateView, Seq<ActionView>) {
    match r {
        Ok(_) => {
            let u = signed_out(s);
            (u, seq![
                ActionView::ResetOverlay,
                ActionView::ForgetSnapshot,
                ActionView::ClearResults,
                ActionView::ClearSelection,
                ActionView::ResetRelations,
                ActionView::ForgetThumbnails,
                ActionView::ForgetFavorites,
            ] + with_backend(u, ActionView::LoadSavedSessions) + seq![ActionView::CloseOverlayWindow])
        },
        Err(e) => (failed(ClientStateView { loading: false, ..s }, e@), Seq::empty()),
    }
}

/// What [`Message::Navigate`] does.
pub open spec fn after_navigate(s: ClientStateView, page: Page) -> (ClientStateView, Seq<ActionView>) {
    let (u, work) = went_to(s, page);
    (u, work + if page == Page::Friends {
        with_backend(u, ActionView::LoadFriendFavorites)
    } else {
        Seq::empty()
    })
}

/// What [`Message::SearchChanged`] does.
pub open spec fn after_search_changed(s: ClientStateView, v: String) -> (ClientStateView, Seq<ActionView>) {
    (
        ClientStateView { search: v@, search_overlay_open: !is_blank(v@), ..s },
        Seq::empty(),
    )
}

/// What [`Message::SubmitSearch`] does.
pub open spec fn after_submit_search(s: ClientStateView) -> (ClientStateView, Seq<ActionView>) {
    if searchable(s.page) {
        let (u, load) = page_load(windows_reset(ClientStateView { search_overlay_open: false, ..s }));
        (u, seq![ActionView::ResetFriendSectionRows, ActionView::PruneThumbnails] + load)
    } else {
        went_to(s, Page::Users)
    }
}

/// What [`Message::SearchPage`] does.
pub open spec fn after_search_page(s: ClientStateView, page: Page) -> (ClientStateView, Seq<ActionView>) {
    went_to(s, page)
}

/// What [`Message::CloseSearchOverlay`] does.
pub open spec fn after_close_search_overlay(s: ClientStateView) -> (ClientStateView, Seq<ActionView>) {
    (ClientStateView { search_overlay_open: false, ..s }, Seq::empty())
}

/// What [`Message::Refresh`] does.
pub open spec fn after_refresh(s: ClientStateView) -> (ClientStateView, Seq<ActionView>) {
    refreshed(s)
}

/// What [`Message::ResultsLoaded`] does.
pub open spec fn after_results_loaded(s: ClientStateView, r: Result<usize, String>) -> (ClientStateView, Seq<ActionView>) {
    let t = ClientStateView { loading: false, ..s };
    match r {
        Ok(n) => (
            ClientStateView { result_count: n, notice: Some(decimal(n as nat) + " items loaded"@), ..t },
            seq![ActionView::LoadMissingThumbnails],
        ),
        Err(e) => (failed(t, e@), Seq::empty()),
    }
}

/// What [`Message::FavoriteFriendsLoaded`] does.
pub open spec fn after_favorite_friends_loaded(s: ClientStateView, r: Result<(), String>) -> (ClientStateView, Seq<ActionView>) {
    match r {
        Ok(_) => (s, Seq::empty()),
        Err(e) => (failed(s, e@), Seq::empty()),
    }
}

/// What [`Message::ToggleFriendSection`] does.
pub open spec fn after_toggle_friend_section(s: ClientStateView, section: FriendSection) -> (ClientStateView, Seq<ActionView>) {
    (
        ClientStateView { collapsed_friend_sections: toggled(s.collapsed_friend_sections, section), ..s },
        seq![ActionView::LoadMissingThumbnails],
    )
}

/// What [`Message::ResourceScrolled`] does.
pub open spec fn after_resource_scrolled(s: ClientStateView, at_end: bool) -> (ClientStateView, Seq<ActionView>) {
    if !at_end || s.resource_row_limit >= s.result_count {
        (s, Seq::empty())
    } else {
        (
            ClientStateView {
                resource_row_limit: grown(s.resource_row_limit, RESOURCE_ROW_INCREMENT, s.result_count),
                ..s
            },
            seq![ActionView::LoadMissingThumbnails],
        )
    }
}

/// What [`Message::RelationScrolled`] does.
pub open spec fn after_relation_scrolled(s: ClientStateView, at_end: bool, total: usize) -> (ClientStateView, Seq<ActionView>) {
    if !at_end || s.relation_row_limit >= total {
        (s, Seq::empty())
    } else {
        (
            ClientStateView { relation_row_limit: grown(s.relation_row_limit, RELATION_ROW_INCREMENT, total), ..s },
            seq![ActionView::LoadMissingThumbnails],
        )
    }
}

/// What [`Message::ToggleNavCategory`] does.
pub open spec fn after_toggle_nav_category(s: ClientStateView, name: String) -> (ClientStateView, Seq<ActionView>) {
    (
        ClientStateView { collapsed_nav_categories: toggled(s.collapsed_nav_categories, name@), ..s },
        Seq::empty(),
    )
}

/// What [`Message::OpenPanelSelector`] does.
pub open spec fn after_open_panel_selector(s: ClientStateView) -> (ClientStateView, Seq<ActionView>) {
    (ClientStateView { panel_selector_open: true, ..s }, Seq::empty())
}

/// What [`Message::ClosePanelSelector`] does.
pub open spec fn after_close_panel_selector(s: ClientStateView) -> (ClientStateView, Seq<ActionView>) {
    (ClientStateView { panel_selector_open: false, ..s }, Seq::empty())
}

/// What [`Message::ToggleNavEditMode`] does.
pub open spec fn after_toggle_nav_edit_mode(s: ClientStateView) -> (ClientStateView, Seq<ActionView>) {
    (ClientStateView { nav_edit_mode: !s.nav_edit_mode, ..s }, Seq::empty())
}

/// What [`Message::ToggleAccountMenu`] does.
pub open spec fn after_toggle_account_menu(s: ClientStateView) -> (ClientStateView, Seq<ActionView>) {
    (ClientStateView { account_menu_open: !s.account_menu_open, ..s }, Seq::empty())
}

/// What [`Message::CloseAccountMenu`] does.
pub open spec fn after_close_account_menu(s: ClientStateView) -> (ClientStateView, Seq<ActionView>) {
    (ClientStateView { account_menu_open: false, ..s }, Seq::empty())
}

/// What [`Message::OpenSettings`] does.
pub open spec fn after_open_settings(s: ClientStateView) -> (ClientStateView, Seq<ActionView>) {
    (
        ClientStateView { account_menu_open: false, settings_open: true, ..s },
        with_backend(s, ActionView::LoadSavedSessions),
    )
}

/// What [`Message::CloseSettings`] does.
pub open spec fn after_close_settings(s: ClientStateView) -> (ClientStateView, Seq<ActionView>) {
    (ClientStateView { settings_open: false, ..s }, Seq::empty())
}

/// What [`Message::SavedSessionsLoaded`] does.
pub open spec fn after_saved_sessions_loaded(s: ClientStateView, r: Result<(), String>) -> (ClientStateView, Seq<ActionView>) {
    match r {
        Ok(_) => (s, seq![ActionView::LoadMissingThumbnails]),
        Err(e) => (failed(s, e@), Seq::empty()),
    }
}

/// What [`Message::AddSession`] does.
pub open spec fn after_add_session(s: ClientStateView) -> (ClientStateView, Seq<ActionView>) {
    if s.has_backend {
        (
            ClientStateView {
                loading: true,
                error: None,
                notice: None,
                account_menu_open: false,
                settings_open: false,
                ..s
            },
            seq![ActionView::BeginNewSession],
        )
    } else {
        (s, Seq::empty())
    }
}

/// What [`Message::AddSessionFinished`] does.
pub open spec fn after_add_session_finished(s: ClientStateView, r: Result<(), String>) -> (ClientStateView, Seq<ActionView>) {
    match r {
        Ok(_) => (signed_out(s), seq![
            ActionView::ForgetSnapshot,
            ActionView::ClearResults,
            ActionView::ClearSelection,
            ActionView::ResetRelations,
            ActionView::ForgetThumbnails,
            ActionView::ForgetFavorites,
        ]),
        Err(e) => (failed(ClientStateView { loading: false, ..s }, e@), Seq::empty()),
    }
}

/// What [`Message::SwitchSession`] does.
pub open spec fn after_switch_session(s: ClientStateView, user_id: String) -> (ClientStateView, Seq<ActionView>) {
    if s.has_backend {
        (
            ClientStateView { loading: true, error: None, notice: None, account_menu_open: false, ..s },
            seq![ActionView::SwitchSession(user_id@)],
        )
    } else {
        (s, Seq::empty())
    }
}

/// Another session was switched to: the list, the open item, the thumbnails and the
/// favorites of the last one are dropped, and the new one's are loaded.
pub open spec fn session_switched(t: ClientStateView) -> (ClientStateView, Seq<ActionView>) {
    let u = ClientStateView {
        signed_in: true,
        result_count: 0,
        item_open: false,
        notice: Some("account.session_switched"@),
        ..t
    };
    let (v, load) = page_load(u);
    (v, seq![
        ActionView::ClearResults,
        ActionView::ClearSelection,
        ActionView::ResetRelations,
        ActionView::ForgetThumbnails,
        ActionView::ForgetFavorites,
    ] + with_backend(u, ActionView::LoadFriendFavorites) + with_backend(u, ActionView::LoadSavedSessions) + load
        + seq![ActionView::LoadMissingThumbnails])
}

/// What [`Message::SwitchSessionFinished`] does.
pub open spec fn after_switch_session_finished(s: ClientStateView, r: Result<bool, String>) -> (ClientStateView, Seq<ActionView>) {
    let t = ClientStateView { loading: false, ..s };
    match r {
        Ok(true) => session_switched(t),
        Ok(false) => (
            ClientStateView { error: Some("account.session_not_found"@), ..t },
            with_backend(t, ActionView::LoadSavedSessions),
        ),
        Err(e) => (failed(t, e@), Seq::empty()),
    }
}

/// What [`Message::LocaleSelected`] does.
pub open spec fn after_locale_selected(s: ClientStateView, locale: Locale) -> (ClientStateView, Seq<ActionView>) {
    (ClientStateView { locale, ..s }, seq![ActionView::SetLocale(locale)])
}

/// What [`Message::NewCategoryNameChanged`] does.
pub open spec fn after_new_category_name_changed(s: ClientStateView, v: String) -> (ClientStateView, Seq<ActionView>) {
    (ClientStateView { new_category_name: v@, ..s }, Seq::empty())
}

/// What [`Message::CreateNavCategory`] does.
pub open spec fn after_create_nav_category(s: ClientStateView) -> (ClientStateView, Seq<ActionView>) {
    let name = trim(s.new_category_name);
    if name.len() > 0 && !has_name_like(s.nav_categories, name) {
        (
            ClientStateView {
                nav_categories: s.nav_categories.push(NavCategoryView { name, pages: Seq::empty() }),
                new_category_name: Seq::empty(),
                ..s
            },
            Seq::empty(),
        )
    } else {
        (s, Seq::empty())
    }
}

/// What [`Message::AddPageToNav`] does.
pub open spec fn after_add_page_to_nav(s: ClientStateView, name: String, page: Page) -> (ClientStateView, Seq<ActionView>) {
    (
        ClientStateView { nav_categories: nav_with_page(s.nav_categories, name@, page), ..s },
        Seq::empty(),
    )
}

/// What [`Message::RemovePageFromNav`] does.
pub open spec fn after_remove_page_from_nav(s: ClientStateView, name: String, page: Page) -> (ClientStateView, Seq<ActionView>) {
    let cats = nav_without_page(s.nav_categories, name@, page);
    let t = ClientStateView { nav_categories: cats, ..s };
    if s.page == page && !page_listed(cats, page) {
        page_load(ClientStateView { page: Page::Dashboard, ..t })
    } else {
        (t, Seq::empty())
    }
}

/// What [`Message::OpenItem`] does.
pub open spec fn after_open_item(s: ClientStateView, index: usize) -> (ClientStateView, Seq<ActionView>) {
    if index >= s.result_count {
        (s, Seq::empty())
    } else {
        let t = ClientStateView {
            item_open: true,
            selected_page: s.page,
            detail_tab: DetailTab::Overview,
            relation_row_limit: INITIAL_RELATION_ROWS,
            ..s
        };
        let opened = seq![ActionView::SelectResult(index), ActionView::ResetRelations, ActionView::PruneThumbnails];
        if !s.has_backend {
            (ClientStateView { detail_loading: false, ..t }, opened)
        } else if s.page == Page::Users {
            (
                ClientStateView { detail_loading: true, relations_loading: true, ..t },
                opened + seq![ActionView::LoadSelectedDetail(item_source(s.page)), ActionView::LoadSelectedRelations],
            )
        } else {
            (
                ClientStateView { detail_loading: true, relations_loading: false, ..t },
                opened + seq![ActionView::LoadSelectedDetail(item_source(s.page))],
            )
        }
    }
}

/// What [`Message::OpenFriend`] does.
pub open spec fn after_open_friend(s: ClientStateView, user_id: String, known: bool) -> (ClientStateView, Seq<ActionView>) {
    if !known {
        (s, Seq::empty())
    } else {
        let t = ClientStateView {
            item_open: true,
            selected_page: Page::Friends,
            detail_tab: DetailTab::Overview,
            relation_row_limit: INITIAL_RELATION_ROWS,
            detail_loading: s.has_backend,
            relations_loading: s.has_backend,
            ..s
        };
        let opened = seq![ActionView::SelectFriend(user_id@), ActionView::ResetRelations, ActionView::PruneThumbnails];
        if s.has_backend {
            (t, opened + seq![ActionView::LoadSelectedDetail(DetailSource::User), ActionView::LoadSelectedRelations])
        } else {
            (t, opened)
        }
    }
}

/// What [`Message::OpenRelated`] does.
pub open spec fn after_open_related(s: ClientStateView, page: Page) -> (ClientStateView, Seq<ActionView>) {
    let t = ClientStateView {
        item_open: true,
        selected_page: page,
        detail_tab: DetailTab::Overview,
        relation_row_limit: INITIAL_RELATION_ROWS,
        relations_loading: false,
        detail_loading: s.has_backend,
        ..s
    };
    (t, seq![ActionView::SelectRelated, ActionView::ResetRelations, ActionView::PruneThumbnails]
        + with_backend(s, ActionView::LoadSelectedDetail(related_source(page))))
}

/// What [`Message::CloseItem`] does.
pub open spec fn after_close_item(s: ClientStateView) -> (ClientStateView, Seq<ActionView>) {
    (
        ClientStateView { item_open: false, detail_loading: false, relations_loading: false, ..s },
        seq![ActionView::ClearSelection, ActionView::ResetRelations, ActionView::PruneThumbnails],
    )
}

/// What [`Message::DetailLoaded`] does.
pub open spec fn after_detail_loaded(s: ClientStateView, r: Result<(), String>) -> (ClientStateView, Seq<ActionView>) {
    let t = ClientStateView { detail_loading: false, ..s };
    match r {
        Ok(_) => (t, Seq::empty()),
        Err(e) => (failed(t, e@), Seq::empty()),
    }
}

/// What [`Message::DetailTabSelected`] does.
pub open spec fn after_detail_tab_selected(s: ClientStateView, tab: DetailTab) -> (ClientStateView, Seq<ActionView>) {
    (
        ClientStateView { detail_tab: tab, relation_row_limit: INITIAL_RELATION_ROWS, ..s },
        seq![ActionView::LoadMissingThumbnails],
    )
}

/// What [`Message::UserRelationsLoaded`] does.
pub open spec fn after_user_relations_loaded(s: ClientStateView, r: Result<(), String>) -> (ClientStateView, Seq<ActionView>) {
    let t = ClientStateView { relations_loading: false, ..s };
    match r {
        Ok(_) => (t, seq![ActionView::LoadMissingThumbnails]),
        Err(e) => (failed(t, e@), Seq::empty()),
    }
}

/// What [`Message::Synchronize`] does.
pub open spec fn after_synchronize(s: ClientStateView) -> (ClientStateView, Seq<ActionView>) {
    if s.has_backend {
        (ClientStateView { loading: true, ..s }, seq![ActionView::Synchronize])
    } else {
        (s, Seq::empty())
    }
}

/// What [`Message::SynchronizeFinished`] does.
pub open spec fn after_synchronize_finished(s: ClientStateView, r: Result<(), String>) -> (ClientStateView, Seq<ActionView>) {
    let t = ClientStateView { loading: false, ..s };
    match r {
        Ok(_) => (
            ClientStateView { notice: Some("Synchronization complete"@), ..t },
            with_backend(t, ActionView::LoadFriendFavorites),
        ),
        Err(e) => (failed(t, e@), Seq::empty()),
    }
}

/// What [`Message::Unfriend`] does.
pub open spec fn after_unfriend(s: ClientStateView, id: String) -> (ClientStateView, Seq<ActionView>) {
    (s, with_backend(s, ActionView::Unfriend(id@)))
}

/// What [`Message::LeaveGroup`] does.
pub open spec fn after_leave_group(s: ClientStateView, id: String) -> (ClientStateView, Seq<ActionView>) {
    (s, with_backend(s, ActionView::LeaveGroup(id@)))
}

/// What [`Message::RemoveFavorite`] does.
pub open spec fn after_remove_favorite(s: ClientStateView, id: String) -> (ClientStateView, Seq<ActionView>) {
    (s, with_backend(s, ActionView::RemoveFavorite(id@)))
}

/// What [`Message::DeleteNotification`] does.
pub open spec fn after_delete_notification(s: ClientStateView, id: String) -> (ClientStateView, Seq<ActionView>) {
    (s, with_backend(s, ActionView::DeleteNotification(id@)))
}

/// What [`Message::ResourceAction`] does.
pub open spec fn after_resource_action(s: ClientStateView, page: Page, id: String) -> (ClientStateView, Seq<ActionView>) {
    (s, with_backend(s, ActionView::ResourceAction(page, id@)))
}

/// What [`Message::ApiMethodChanged`] does.
pub open spec fn after_api_method_changed(s: ClientStateView, v: String) -> (ClientStateView, Seq<ActionView>) {
    (ClientStateView { api_method: v@, ..s }, Seq::empty())
}

/// What [`Message::ApiPathChanged`] does.
pub open spec fn after_api_path_changed(s: ClientStateView, v: String) -> (ClientStateView, Seq<ActionView>) {
    (ClientStateView { api_path: v@, ..s }, Seq::empty())
}

/// What [`Message::ApiBodyChanged`] does.
pub open spec fn after_api_body_changed(s: ClientStateView, v: String) -> (ClientStateView, Seq<ActionView>) {
    (ClientStateView { api_body: v@, ..s }, Seq::empty())
}

/// What [`Message::ExecuteApi`] does.
pub open spec fn after_execute_api(s: ClientStateView) -> (ClientStateView, Seq<ActionView>) {
    if s.has_backend {
        (
            ClientStateView { loading: true, ..s },
            seq![ActionView::ExecuteApi { method: s.api_method, path: s.api_path, body: s.api_body }],
        )
    } else {
        (s, Seq::empty())
    }
}

/// What [`Message::ApiExecuted`] does.
pub open spec fn after_api_executed(s: ClientStateView, r: Result<(), String>) -> (ClientStateView, Seq<ActionView>) {
    let t = ClientStateView { loading: false, ..s };
    match r {
        Ok(_) => (t, Seq::empty()),
        Err(e) => (failed(t, e@), Seq::empty()),
    }
}

/// After an action on an item: the selection is dropped and the page and the favorite
/// friends load again.
pub open spec fn reloaded_after_action(u: ClientStateView) -> (ClientStateView, Seq<ActionView>) {
    let (v, load) = page_load(u);
    (v, seq![ActionView::ClearSelection] + load + with_backend(u, ActionView::LoadFriendFavorites))
}

/// What [`Message::ActionFinished`] does.
pub open spec fn after_action_finished(s: ClientStateView, r: Result<String, String>) -> (ClientStateView, Seq<ActionView>) {
    let t = match r {
        Ok(n) => ClientStateView { notice: Some(n@), ..s },
        Err(e) => failed(s, e@),
    };
    reloaded_after_action(ClientStateView { item_open: false, ..t })
}

/// What [`Message::ClearFeedback`] does.
pub open spec fn after_clear_feedback(s: ClientStateView) -> (ClientStateView, Seq<ActionView>) {
    (ClientStateView { error: None, notice: None, ..s }, Seq::empty())
}

/// The next state and the work to do, in order, after `m` in state `s`.
pub open spec fn step(s: ClientStateView, m: Message) -> (ClientStateView, Seq<ActionView>) {
    match m {
        Message::ToggleScreenOverlay => after_toggle_screen_overlay(s),
        Message::ReloadScreenOverlay => after_reload_screen_overlay(s),
        Message::TestScreenOverlay => after_test_screen_overlay(s),
        Message::SelectOverlayRule(e) => after_select_overlay_rule(s, e),
        Message::EditOverlayRule(edit) => after_edit_overlay_rule(s, edit),
        Message::SaveScreenOverlayEditor => after_save_screen_overlay_editor(s),
        Message::OverlayConfigSaved(r) => after_overlay_config_saved(s, r),
        Message::BootFinished(r) => after_boot_finished(s, r),
        Message::UsernameChanged(v) => after_username_changed(s, v),
        Message::PasswordChanged(v) => after_password_changed(s, v),
        Message::Login => after_login(s),
        Message::LoginFinished(r) => after_login_finished(s, r),
        Message::TwoFactorCodeChanged(v) => after_two_factor_code_changed(s, v),
        Message::SelectTwoFactor(method) => after_select_two_factor(s, method),
        Message::VerifyTwoFactor => after_verify_two_factor(s),
        Message::Logout => after_logout(s),
        Message::LogoutFinished(r) => after_logout_finished(s, r),
        Message::Navigate(page) => after_navigate(s, page),
        Message::SearchChanged(v) => after_search_changed(s, v),
        Message::SubmitSearch => after_submit_search(s),
        Message::SearchPage(page) => after_search_page(s, page),
        Message::CloseSearchOverlay => after_close_search_overlay(s),
        Message::Refresh => after_refresh(s),
        Message::ResultsLoaded(r) => after_results_loaded(s, r),
        Message::FavoriteFriendsLoaded(r) => after_favorite_friends_loaded(s, r),
        Message::ToggleFriendSection(section) => after_toggle_friend_section(s, section),
        Message::ResourceScrolled { at_end } => after_resource_scrolled(s, at_end),
        Message::RelationScrolled { at_end, total } => after_relation_scrolled(s, at_end, total),
        Message::ToggleNavCategory(name) => after_toggle_nav_category(s, name),
        Message::OpenPanelSelector => after_open_panel_selector(s),
        Message::ClosePanelSelector => after_close_panel_selector(s),
        Message::ToggleNavEditMode => after_toggle_nav_edit_mode(s),
        Message::ToggleAccountMenu => after_toggle_account_menu(s),
        Message::CloseAccountMenu => after_close_account_menu(s),
        Message::OpenSettings => after_open_settings(s),
        Message::CloseSettings => after_close_settings(s),
        Message::SavedSessionsLoaded(r) => after_saved_sessions_loaded(s, r),
        Message::AddSession => after_add_session(s),
        Message::AddSessionFinished(r) => after_add_session_finished(s, r),
        Message::SwitchSession(user_id) => after_switch_session(s, user_id),
        Message::SwitchSessionFinished(r) => after_switch_session_finished(s, r),
        Message::LocaleSelected(locale) => after_locale_selected(s, locale),
        Message::NewCategoryNameChanged(v) => after_new_category_name_changed(s, v),
        Message::CreateNavCategory => after_create_nav_category(s),
        Message::AddPageToNav(name, page) => after_add_page_to_nav(s, name, page),
        Message::RemovePageFromNav(name, page) => after_remove_page_from_nav(s, name, page),
        Message::OpenItem(index) => after_open_item(s, index),
        Message::OpenFriend { user_id, known } => after_open_friend(s, user_id, known),
        Message::OpenRelated(page) => after_open_related(s, page),
        Message::CloseItem => after_close_item(s),
        Message::DetailLoaded(r) => after_detail_loaded(s, r),
        Message::DetailTabSelected(tab) => after_detail_tab_selected(s, tab),
        Message::UserRelationsLoaded(r) => after_user_relations_loaded(s, r),
        Message::Synchronize => after_synchronize(s),
        Message::SynchronizeFinished(r) => after_synchronize_finished(s, r),
        Message::Unfriend(id) => after_unfriend(s, id),
        Message::LeaveGroup(id) => after_leave_group(s, id),
        Message::RemoveFavorite(id) => after_remove_favorite(s, id),
        Message::DeleteNotification(id) => after_delete_notification(s, id),
        Message::ResourceAction(page, id) => after_resource_action(s, page, id),
        Message::ApiMethodChanged(v) => after_api_method_changed(s, v),
        Message::ApiPathChanged(v) => after_api_path_changed(s, v),
        Message::ApiBodyChanged(v) => after_api_body_changed(s, v),
        Message::ExecuteApi => after_execute_api(s),
        Message::ApiExecuted(r) => after_api_executed(s, r),
        Message::ActionFinished(r) => after_action_finished(s, r),
        Message::ClearFeedback => after_clear_feedback(s),
    }
}

// ---------------------------------------------------------------------------
// The handler
// ---------------------------------------------------------------------------

/// Adds `a` to the work.
fn push_action(actions: &mut Vec<Action>, a: Action)
    ensures
        actions_view(final(actions)@) == actions_view(old(actions)@).push(a@),
{
    actions.push(a);
    assert(actions_view(actions@) =~= actions_view(old(actions)@).push(a@));
}

/// A copy of a two-factor method.
fn copy_method(m: &TwoFactorMethod) -> (r: TwoFactorMethod)
    ensures
        r@ == m@,
{
    match m {
        TwoFactorMethod::Totp => TwoFactorMethod::Totp,
        TwoFactorMethod::EmailOtp => TwoFactorMethod::EmailOtp,
        TwoFactorMethod::RecoveryCode => TwoFactorMethod::RecoveryCode,
        TwoFactorMethod::Unknown(name) => TwoFactorMethod::Unknown(name.clone()),
    }
}

impl ClientState {
    /// The state when the client starts: on the dashboard, busy reading the saved
    /// sessions where the backend opened, else showing why it did not.
    pub fn boot(backend: Result<(), String>, locale: Locale, essentials_name: String) -> (r: (ClientState, Vec<Action>))
        ensures
            r.0.page == Page::Dashboard,
            r.0.selected_page == Page::Users,
            r.0@.search.len() == 0,
            !r.0.search_overlay_open,
            r.0.has_backend == (backend is Ok),
            !r.0.signed_in,
            r.0@.username.len() == 0 && r.0@.password.len() == 0 && r.0@.two_factor_code.len() == 0,
            r.0@.two_factor_methods.len() == 0 && r.0.selected_two_factor is None,
            r.0.result_count == 0 && !r.0.item_open && r.0.detail_tab == DetailTab::Overview,
            !r.0.detail_loading && !r.0.relations_loading,
            r.0.resource_row_limit == INITIAL_RESOURCE_ROWS && r.0.relation_row_limit == INITIAL_RELATION_ROWS,
            r.0@.collapsed_friend_sections == seq![FriendSection::Offline],
            r.0@.collapsed_nav_categories.len() == 0,
            r.0@.nav_categories.len() == 1,
            r.0@.nav_categories[0].name == essentials_name@,
            r.0@.new_category_name.len() == 0,
            !r.0.panel_selector_open && !r.0.settings_open && !r.0.nav_edit_mode && !r.0.account_menu_open,
            r.0.locale == locale,
            r.0.notice is None,
            r.0@.overlay_editor_rule == "friend-online"@,
            r.0@.api_method == "GET"@ && r.0@.api_path.len() == 0 && r.0@.api_body == "{}"@,
            match backend {
                Ok(_) => r.0.loading && r.0.error is None && actions_view(r.1@) == seq![ActionView::Boot],
                Err(e) => !r.0.loading && opt_str(r.0.error) == Some(e@) && r.1@.len() == 0,
            },
    {
        let mut sections: Vec<FriendSection> = Vec::new();
        sections.push(FriendSection::Offline);
        let mut categories: Vec<NavCategory> = Vec::new();
        categories.push(NavCategory::essentials(essentials_name));
        let mut state = ClientState {
            page: Page::Dashboard,
            selected_page: Page::Users,
            search: String::new(),
            search_overlay_open: false,
            has_backend: false,
            signed_in: false,
            username: String::new(),
            password: String::new(),
            two_factor_code: String::new(),
            two_factor_methods: Vec::new(),
            selected_two_factor: None,
            result_count: 0,
            item_open: false,
            detail_tab: DetailTab::Overview,
            detail_loading: false,
            relations_loading: false,
            resource_row_limit: INITIAL_RESOURCE_ROWS,
            relation_row_limit: INITIAL_RELATION_ROWS,
            collapsed_friend_sections: sections,
            collapsed_nav_categories: Vec::new(),
            nav_categories: categories,
            new_category_name: String::new(),
            panel_selector_open: false,
            settings_open: false,
            nav_edit_mode: false,
            account_menu_open: false,
            locale,
            loading: true,
            error: None,
            notice: None,
            overlay_editor_rule: owned("friend-online"),
            api_method: owned("GET"),
            api_path: String::new(),
            api_body: owned("{}"),
        };
        let mut actions: Vec<Action> = Vec::new();
        match backend {
            Ok(()) => {
                state.has_backend = true;
                push_action(&mut actions, Action::Boot);
            },
            Err(e) => {
                state.loading = false;
                state.error = Some(e);
            },
        }
        proof {
            assert(actions_view(actions@).len() == actions@.len());
        }
        (state, actions)
    }

    /// Loads the current page, where the backend opened.
    fn load_page(&mut self, actions: &mut Vec<Action>)
        ensures
            final(self)@ == page_load(old(self)@).0,
            final(self).has_backend == old(self).has_backend,
            actions_view(final(actions)@) == actions_view(old(actions)@) + page_load(old(self)@).1,
    {
        if self.has_backend {
            self.loading = true;
            push_action(actions, Action::LoadPage { page: self.page, query: self.search.clone() });
        } else {
            assert(actions_view(actions@) =~= actions_view(old(actions)@) + Seq::<ActionView>::empty());
        }
    }

    /// Adds `a` to the work, where the backend opened.
    fn add_with_backend(&self, actions: &mut Vec<Action>, a: Action)
        ensures
            actions_view(final(actions)@) == actions_view(old(actions)@) + with_backend(self@, a@),
    {
        if self.has_backend {
            push_action(actions, a);
            assert(actions_view(old(actions)@).push(a@) =~= actions_view(old(actions)@) + seq![a@]);
        } else {
            assert(actions_view(actions@) =~= actions_view(old(actions)@) + Seq::<ActionView>::empty());
        }
    }

    /// The lists back at their first rows.
    fn reset_windows(&mut self)
        ensures
            final(self)@ == windows_reset(old(self)@),
    {
        self.resource_row_limit = INITIAL_RESOURCE_ROWS;
        self.relation_row_limit = INITIAL_RELATION_ROWS;
    }

    /// The work after a sign-in.
    fn sign_in_work(&self, actions: &mut Vec<Action>)
        ensures
            actions_view(final(actions)@) == actions_view(old(actions)@) + signed_in_work(self@),
    {
        self.add_with_backend(actions, Action::LoadFriendFavorites);
        self.add_with_backend(actions, Action::LoadSavedSessions);
        push_action(actions, Action::LoadMissingThumbnails);
        assert(actions_view(actions@) =~= actions_view(old(actions)@) + signed_in_work(self@));
    }

    /// Goes to `page`, dropping the list and the open item.
    fn go_to(&mut self, page: Page, actions: &mut Vec<Action>)
        ensures
            final(self)@ == went_to(old(self)@, page).0,
            actions_view(final(actions)@) == actions_view(old(actions)@) + went_to(old(self)@, page).1,
    {
        self.page = page;
        self.search_overlay_open = false;
        self.result_count = 0;
        self.item_open = false;
        self.error = None;
        self.reset_windows();
        push_action(actions, Action::ClearResults);
        push_action(actions, Action::ClearSelection);
        push_action(actions, Action::ResetRelations);
        push_action(actions, Action::ResetFriendSectionRows);
        push_action(actions, Action::PruneThumbnails);
        self.load_page(actions);
        assert(actions_view(actions@) =~= actions_view(old(actions)@) + went_to(old(self)@, page).1);
    }

    /// Leaves the account.
    fn sign_out(&mut self)
        ensures
            final(self)@ == signed_out(old(self)@),
    {
        self.loading = false;
        self.signed_in = false;
        self.result_count = 0;
        self.item_open = false;
        self.two_factor_methods = Vec::new();
        assert(methods_view(self.two_factor_methods@) =~= Seq::<TwoFactorMethodView>::empty());
    }
}

impl ClientState {
    /// Handles one message: changes the state and returns the outside work to do, in
    /// order.
    pub fn update(&mut self, message: Message) -> (actions: Vec<Action>)
        ensures
            final(self)@ == step(old(self)@, message).0,
            actions_view(actions@) == step(old(self)@, message).1,
    {
        match message {
            Message::ToggleScreenOverlay => self.on_toggle_screen_overlay(),
            Message::ReloadScreenOverlay => self.on_reload_screen_overlay(),
            Message::TestScreenOverlay => self.on_test_screen_overlay(),
            Message::SelectOverlayRule(e) => self.on_select_overlay_rule(e),
            Message::EditOverlayRule(edit) => self.on_edit_overlay_rule(edit),
            Message::SaveScreenOverlayEditor => self.on_save_screen_overlay_editor(),
            Message::OverlayConfigSaved(r) => self.on_overlay_config_saved(r),
            Message::LocaleSelected(locale) => self.on_locale_selected(locale),
            Message::BootFinished(r) => self.on_boot_finished(r),
            Message::UsernameChanged(v) => self.on_username_changed(v),
            Message::PasswordChanged(v) => self.on_password_changed(v),
            Message::Login => self.on_login(),
            Message::LoginFinished(r) => self.on_login_finished(r),
            Message::TwoFactorCodeChanged(v) => self.on_two_factor_code_changed(v),
            Message::SelectTwoFactor(method) => self.on_select_two_factor(method),
            Message::VerifyTwoFactor => self.on_verify_two_factor(),
            Message::Logout => self.on_logout(),
            Message::LogoutFinished(r) => self.on_logout_finished(r),
            Message::AddSession => self.on_add_session(),
            Message::AddSessionFinished(r) => self.on_add_session_finished(r),
            Message::SwitchSession(user_id) => self.on_switch_session(user_id),
            Message::SwitchSessionFinished(r) => self.on_switch_session_finished(r),
            Message::SavedSessionsLoaded(r) => self.on_saved_sessions_loaded(r),
            Message::OpenSettings => self.on_open_settings(),
            Message::CloseSettings => self.on_close_settings(),
            Message::Navigate(page) => self.on_navigate(page),
            Message::SearchChanged(v) => self.on_search_changed(v),
            Message::SubmitSearch => self.on_submit_search(),
            Message::SearchPage(page) => self.on_search_page(page),
            Message::CloseSearchOverlay => self.on_close_search_overlay(),
            Message::Refresh => self.on_refresh(),
            Message::ResultsLoaded(r) => self.on_results_loaded(r),
            Message::FavoriteFriendsLoaded(r) => self.on_favorite_friends_loaded(r),
            Message::ToggleFriendSection(section) => self.on_toggle_friend_section(section),
            Message::ResourceScrolled { at_end } => self.on_resource_scrolled(at_end),
            Message::RelationScrolled { at_end, total } => self.on_relation_scrolled(at_end, total),
            Message::ToggleNavCategory(name) => self.on_toggle_nav_category(name),
            Message::OpenPanelSelector => self.on_open_panel_selector(),
            Message::ClosePanelSelector => self.on_close_panel_selector(),
            Message::ToggleNavEditMode => self.on_toggle_nav_edit_mode(),
            Message::ToggleAccountMenu => self.on_toggle_account_menu(),
            Message::CloseAccountMenu => self.on_close_account_menu(),
            Message::NewCategoryNameChanged(v) => self.on_new_category_name_changed(v),
            Message::CreateNavCategory => self.on_create_nav_category(),
            Message::AddPageToNav(name, page) => self.on_add_page_to_nav(name, page),
            Message::RemovePageFromNav(name, page) => self.on_remove_page_from_nav(name, page),
            Message::OpenItem(index) => self.on_open_item(index),
            Message::OpenFriend { user_id, known } => self.on_open_friend(user_id, known),
            Message::OpenRelated(page) => self.on_open_related(page),
            Message::CloseItem => self.on_close_item(),
            Message::DetailLoaded(r) => self.on_detail_loaded(r),
            Message::DetailTabSelected(tab) => self.on_detail_tab_selected(tab),
            Message::UserRelationsLoaded(r) => self.on_user_relations_loaded(r),
            Message::Synchronize => self.on_synchronize(),
            Message::SynchronizeFinished(r) => self.on_synchronize_finished(r),
            Message::Unfriend(id) => self.on_unfriend(id),
            Message::LeaveGroup(id) => self.on_leave_group(id),
            Message::RemoveFavorite(id) => self.on_remove_favorite(id),
            Message::DeleteNotification(id) => self.on_delete_notification(id),
            Message::ResourceAction(page, id) => self.on_resource_action(page, id),
            Message::ApiMethodChanged(v) => self.on_api_method_changed(v),
            Message::ApiPathChanged(v) => self.on_api_path_changed(v),
            Message::ApiBodyChanged(v) => self.on_api_body_changed(v),
            Message::ExecuteApi => self.on_execute_api(),
            Message::ApiExecuted(r) => self.on_api_executed(r),
            Message::ActionFinished(r) => self.on_action_finished(r),
            Message::ClearFeedback => self.on_clear_feedback(),
        }
    }

    fn on_toggle_screen_overlay(&mut self) -> (actions: Vec<Action>)
        ensures
            final(self)@ == after_toggle_screen_overlay(old(self)@).0,
            actions_view(actions@) == after_toggle_screen_overlay(old(self)@).1,
    {
        let mut actions: Vec<Action> = Vec::new();
        assert(actions_view(actions@) =~= Seq::<ActionView>::empty());
        push_action(&mut actions, Action::ToggleOverlayEnabled);
        actions
    }

    fn on_reload_screen_overlay(&mut self) -> (actions: Vec<Action>)
        ensures
            final(self)@ == after_reload_screen_overlay(old(self)@).0,
            actions_view(actions@) == after_reload_screen_overlay(old(self)@).1,
    {
        let mut actions: Vec<Action> = Vec::new();
        assert(actions_view(actions@) =~= Seq::<ActionView>::empty());
        self.notice = Some(owned("screen_overlay.reloaded"));
        push_action(&mut actions, Action::ReloadOverlay);
        push_action(&mut actions, Action::ShowRuleSettings(self.overlay_editor_rule.clone()));
        push_action(&mut actions, Action::CloseOverlayWindow);
        actions
    }

    fn on_test_screen_overlay(&mut self) -> (actions: Vec<Action>)
        ensures
            final(self)@ == after_test_screen_overlay(old(self)@).0,
            actions_view(actions@) == after_test_screen_overlay(old(self)@).1,
    {
        let mut actions: Vec<Action> = Vec::new();
        assert(actions_view(actions@) =~= Seq::<ActionView>::empty());
        push_action(&mut actions, Action::PreviewOverlay(self.overlay_editor_rule.clone()));
        actions
    }

    fn on_select_overlay_rule(&mut self, e: String) -> (actions: Vec<Action>)
        ensures
            final(self)@ == after_select_overlay_rule(old(self)@, e).0,
            actions_view(actions@) == after_select_overlay_rule(old(self)@, e).1,
    {
        let mut actions: Vec<Action> = Vec::new();
        assert(actions_view(actions@) =~= Seq::<ActionView>::empty());
        push_action(&mut actions, Action::ShowRuleSettings(e.clone()));
        self.overlay_editor_rule = e;
        actions
    }

    fn on_edit_overlay_rule(&mut self, edit: RuleEdit) -> (actions: Vec<Action>)
        ensures
            final(self)@ == after_edit_overlay_rule(old(self)@, edit).0,
            actions_view(actions@) == after_edit_overlay_rule(old(self)@, edit).1,
    {
        let mut actions: Vec<Action> = Vec::new();
        assert(actions_view(actions@) =~= Seq::<ActionView>::empty());
        push_action(&mut actions, Action::EditOverlayRule { rule: self.overlay_editor_rule.clone(), edit });
        actions
    }

    fn on_save_screen_overlay_editor(&mut self) -> (actions: Vec<Action>)
        ensures
            final(self)@ == after_save_screen_overlay_editor(old(self)@).0,
            actions_view(actions@) == after_save_screen_overlay_editor(old(self)@).1,
    {
        let mut actions: Vec<Action> = Vec::new();
        assert(actions_view(actions@) =~= Seq::<ActionView>::empty());
        push_action(&mut actions, Action::SaveOverlayConfig);
        actions
    }

    fn on_overlay_config_saved(&mut self, r: Result<(), String>) -> (actions: Vec<Action>)
        ensures
            final(self)@ == after_overlay_config_saved(old(self)@, r).0,
            actions_view(actions@) == after_overlay_config_saved(old(self)@, r).1,
    {
        let mut actions: Vec<Action> = Vec::new();
        assert(actions_view(actions@) =~= Seq::<ActionView>::empty());
        match r {
            Ok(()) => self.notice = Some(owned("screen_overlay.saved")),
            Err(e) => self.error = Some(e),
        }
        actions
    }

    fn on_locale_selected(&mut self, locale: Locale) -> (actions: Vec<Action>)
        ensures
            final(self)@ == after_locale_selected(old(self)@, locale).0,
            actions_view(actions@) == after_locale_selected(old(self)@, locale).1,
    {
        let mut actions: Vec<Action> = Vec::new();
        assert(actions_view(actions@) =~= Seq::<ActionView>::empty());
        self.locale = locale;
        push_action(&mut actions, Action::SetLocale(locale));
        actions
    }

    fn on_boot_finished(&mut self, r: Result<bool, String>) -> (actions: Vec<Action>)
        ensures
            final(self)@ == after_boot_finished(old(self)@, r).0,
            actions_view(actions@) == after_boot_finished(old(self)@, r).1,
    {
        let mut actions: Vec<Action> = Vec::new();
        assert(actions_view(actions@) =~= Seq::<ActionView>::empty());
        self.loading = false;
        match r {
            Ok(restored) => {
                self.signed_in = restored;
                if restored {
                    self.sign_in_work(&mut actions);
                } else {
                    push_action(&mut actions, Action::LoadMissingThumbnails);
                }
            },
            Err(e) => self.error = Some(e),
        }
        actions
    }

    fn on_username_changed(&mut self, v: String) -> (actions: Vec<Action>)
        ensures
            final(self)@ == after_username_changed(old(self)@, v).0,
            actions_view(actions@) == after_username_changed(old(self)@, v).1,
    {
        let mut actions: Vec<Action> = Vec::new();
        assert(actions_view(actions@) =~= Seq::<ActionView>::empty());
        self.username = v;
        actions
    }

    fn on_password_changed(&mut self, v: String) -> (actions: Vec<Action>)
        ensures
            final(self)@ == after_password_changed(old(self)@, v).0,
            actions_view(actions@) == after_password_changed(old(self)@, v).1,
    {
        let mut actions: Vec<Action> = Vec::new();
        assert(actions_view(actions@) =~= Seq::<ActionView>::empty());
        self.password = v;
        actions
    }

    fn on_login(&mut self) -> (actions: Vec<Action>)
        ensures
            final(self)@ == after_login(old(self)@).0,
            actions_view(actions@) == after_login(old(self)@).1,
    {
        let mut actions: Vec<Action> = Vec::new();
        assert(actions_view(actions@) =~= Seq::<ActionView>::empty());
        if self.has_backend {
            self.loading = true;
            self.error = None;
            push_action(
                &mut actions,
                Action::Login { username: self.username.clone(), password: self.password.clone() },
            );
        }
        actions
    }

    #[verifier::rlimit(100)]
    fn on_login_finished(&mut self, r: Result<LoginOutcome, String>) -> (actions: Vec<Action>)
        ensures
            final(self)@ == after_login_finished(old(self)@, r).0,
            actions_view(actions@) == after_login_finished(old(self)@, r).1,
    {
        self.loading = false;
        match r {
            Ok(o) => self.take_login_outcome(o),
            Err(e) => {
                self.error = Some(e);
                let actions: Vec<Action> = Vec::new();
                assert(actions_view(actions@) =~= Seq::<ActionView>::empty());
                actions
            },
        }
    }

    #[verifier::rlimit(100)]
    fn take_login_outcome(&mut self, o: LoginOutcome) -> (actions: Vec<Action>)
        ensures
            final(self)@ == login_outcome(old(self)@, o).0,
            actions_view(actions@) == login_outcome(old(self)@, o).1,
    {
        let mut actions: Vec<Action> = Vec::new();
        assert(actions_view(actions@) =~= Seq::<ActionView>::empty());
        match o {
            LoginOutcome::Authenticated => {
                self.signed_in = true;
                self.password = String::new();
                assert(self@ == ClientStateView { signed_in: true, password: Seq::empty(), ..old(self)@ });
                self.sign_in_work(&mut actions);
            },
            LoginOutcome::TwoFactorRequired(methods) => {
                self.selected_two_factor = if methods.len() > 0 {
                    Some(copy_method(&methods[0]))
                } else {
                    None
                };
                self.two_factor_methods = methods;
                assert(self@ == login_outcome(old(self)@, o).0);
            },
            LoginOutcome::InvalidCredentials => self.error = Some(owned("Invalid credentials")),
        }
        actions
    }

    fn on_two_factor_code_changed(&mut self, v: String) -> (actions: Vec<Action>)
        ensures
            final(self)@ == after_two_factor_code_changed(old(self)@, v).0,
            actions_view(actions@) == after_two_factor_code_changed(old(self)@, v).1,
    {
        let mut actions: Vec<Action> = Vec::new();
        assert(actions_view(actions@) =~= Seq::<ActionView>::empty());
        self.two_factor_code = v;
        actions
    }

    fn on_select_two_factor(&mut self, method: TwoFactorMethod) -> (actions: Vec<Action>)
        ensures
            final(self)@ == after_select_two_factor(old(self)@, method).0,
            actions_view(actions@) == after_select_two_factor(old(self)@, method).1,
    {
        let mut actions: Vec<Action> = Vec::new();
        assert(actions_view(actions@) =~= Seq::<ActionView>::empty());
        self.selected_two_factor = Some(method);
        actions
    }

    fn on_verify_two_factor(&mut self) -> (actions: Vec<Action>)
        ensures
            final(self)@ == after_verify_two_factor(old(self)@).0,
            actions_view(actions@) == after_verify_two_factor(old(self)@).1,
    {
        let mut actions: Vec<Action> = Vec::new();
        assert(actions_view(actions@) =~= Seq::<ActionView>::empty());
        if self.has_backend {
            match &self.selected_two_factor {
                Some(method) => {
                    let method = copy_method(method);
                    self.loading = true;
                    push_action(
                        &mut actions,
                        Action::VerifyTwoFactor { method, code: self.two_factor_code.clone() },
                    );
                },
                None => {},
            }
        }
        actions
    }

    fn on_logout(&mut self) -> (actions: Vec<Action>)
        ensures
            final(self)@ == after_logout(old(self)@).0,
            actions_view(actions@) == after_logout(old(self)@).1,
    {
        let mut actions: Vec<Action> = Vec::new();
        assert(actions_view(actions@) =~= Seq::<ActionView>::empty());
        if self.has_backend {
            self.account_menu_open = false;
            self.loading = true;
            push_action(&mut actions, Action::Logout);
        }
        actions
    }

    fn on_logout_finished(&mut self, r: Result<(), String>) -> (actions: Vec<Action>)
        ensures
            final(self)@ == after_logout_finished(old(self)@, r).0,
            actions_view(actions@) == after_logout_finished(old(self)@, r).1,
    {
        let mut actions: Vec<Action> = Vec::new();
        assert(actions_view(actions@) =~= Seq::<ActionView>::empty());
        match r {
            Ok(()) => {
                self.sign_out();
                push_action(&mut actions, Action::ResetOverlay);
                push_action(&mut actions, Action::ForgetSnapshot);
                push_action(&mut actions, Action::ClearResults);
                push_action(&mut actions, Action::ClearSelection);
                push_action(&mut actions, Action::ResetRelations);
                push_action(&mut actions, Action::ForgetThumbnails);
                push_action(&mut actions, Action::ForgetFavorites);
                self.add_with_backend(&mut actions, Action::LoadSavedSessions);
                push_action(&mut actions, Action::CloseOverlayWindow);
            },
            Err(e) => {
                self.loading = false;
                self.error = Some(e);
            },
        }
        actions
    }

    fn on_add_session(&mut self) -> (actions: Vec<Action>)
        ensures
            final(self)@ == after_add_session(old(self)@).0,
            actions_view(actions@) == after_add_session(old(self)@).1,
    {
        let mut actions: Vec<Action> = Vec::new();
        assert(actions_view(actions@) =~= Seq::<ActionView>::empty());
        if self.has_backend {
            self.loading = true;
            self.error = None;
            self.notice = None;
            self.account_menu_open = false;
            self.settings_open = false;
            push_action(&mut actions, Action::BeginNewSession);
        }
        actions
    }

    fn on_add_session_finished(&mut self, r: Result<(), String>) -> (actions: Vec<Action>)
        ensures
            final(self)@ == after_add_session_finished(old(self)@, r).0,
            actions_view(actions@) == after_add_session_finished(old(self)@, r).1,
    {
        let mut actions: Vec<Action> = Vec::new();
        assert(actions_view(actions@) =~= Seq::<ActionView>::empty());
        match r {
            Ok(()) => {
                self.sign_out();
                push_action(&mut actions, Action::ForgetSnapshot);
                push_action(&mut actions, Action::ClearResults);
                push_action(&mut actions, Action::ClearSelection);
                push_action(&mut actions, Action::ResetRelations);
                push_action(&mut actions, Action::ForgetThumbnails);
                push_action(&mut actions, Action::ForgetFavorites);
            },
            Err(e) => {
                self.loading = false;
                self.error = Some(e);
            },
        }
        actions
    }

    fn on_switch_session(&mut self, user_id: String) -> (actions: Vec<Action>)
        ensures
            final(self)@ == after_switch_session(old(self)@, user_id).0,
            actions_view(actions@) == after_switch_session(old(self)@, user_id).1,
    {
        let mut actions: Vec<Action> = Vec::new();
        assert(actions_view(actions@) =~= Seq::<ActionView>::empty());
        if self.has_backend {
            self.loading = true;
            self.error = None;
            self.notice = None;
            self.account_menu_open = false;
            push_action(&mut actions, Action::SwitchSession(user_id));
        }
        actions
    }

    #[verifier::rlimit(100)]
    fn on_switch_session_finished(&mut self, r: Result<bool, String>) -> (actions: Vec<Action>)
        ensures
            final(self)@ == after_switch_session_finished(old(self)@, r).0,
            actions_view(actions@) == after_switch_session_finished(old(self)@, r).1,
    {
        self.loading = false;
        let ghost t = ClientStateView { loading: false, ..old(self)@ };
        assert(self@ == t);
        match r {
            Ok(true) => self.switch_to_session(),
            Ok(false) => {
                let mut actions: Vec<Action> = Vec::new();
                assert(actions_view(actions@) =~= Seq::<ActionView>::empty());
                self.error = Some(owned("account.session_not_found"));
                self.add_with_backend(&mut actions, Action::LoadSavedSessions);
                actions
            },
            Err(e) => {
                self.error = Some(e);
                let actions: Vec<Action> = Vec::new();
                assert(actions_view(actions@) =~= Seq::<ActionView>::empty());
                actions
            },
        }
    }

    fn switch_to_session(&mut self) -> (actions: Vec<Action>)
        ensures
            final(self)@ == session_switched(old(self)@).0,
            actions_view(actions@) == session_switched(old(self)@).1,
    {
        let mut actions: Vec<Action> = Vec::new();
        assert(actions_view(actions@) =~= Seq::<ActionView>::empty());
        self.signed_in = true;
        self.result_count = 0;
        self.item_open = false;
        self.notice = Some(owned("account.session_switched"));
        push_action(&mut actions, Action::ClearResults);
        push_action(&mut actions, Action::ClearSelection);
        push_action(&mut actions, Action::ResetRelations);
        push_action(&mut actions, Action::ForgetThumbnails);
        push_action(&mut actions, Action::ForgetFavorites);
        self.add_with_backend(&mut actions, Action::LoadFriendFavorites);
        self.add_with_backend(&mut actions, Action::LoadSavedSessions);
        self.load_page(&mut actions);
        push_action(&mut actions, Action::LoadMissingThumbnails);
        assert(actions_view(actions@) =~= session_switched(old(self)@).1);
        actions
    }

    fn on_saved_sessions_loaded(&mut self, r: Result<(), String>) -> (actions: Vec<Action>)
        ensures
            final(self)@ == after_saved_sessions_loaded(old(self)@, r).0,
            actions_view(actions@) == after_saved_sessions_loaded(old(self)@, r).1,
    {
        let mut actions: Vec<Action> = Vec::new();
        assert(actions_view(actions@) =~= Seq::<ActionView>::empty());
        match r {
            Ok(()) => push_action(&mut actions, Action::LoadMissingThumbnails),
            Err(e) => self.error = Some(e),
        }
        actions
    }

    fn on_open_settings(&mut self) -> (actions: Vec<Action>)
        ensures
            final(self)@ == after_open_settings(old(self)@).0,
            actions_view(actions@) == after_open_settings(old(self)@).1,
    {
        let mut actions: Vec<Action> = Vec::new();
        assert(actions_view(actions@) =~= Seq::<ActionView>::empty());
        self.account_menu_open = false;
        self.settings_open = true;
        self.add_with_backend(&mut actions, Action::LoadSavedSessions);
        actions
    }

    fn on_close_settings(&mut self) -> (actions: Vec<Action>)
        ensures
            final(self)@ == after_close_settings(old(self)@).0,
            actions_view(actions@) == after_close_settings(old(self)@).1,
    {
        let mut actions: Vec<Action> = Vec::new();
        assert(actions_view(actions@) =~= Seq::<ActionView>::empty());
        self.settings_open = false;
        actions
    }

    fn on_navigate(&mut self, page: Page) -> (actions: Vec<Action>)
        ensures
            final(self)@ == after_navigate(old(self)@, page).0,
            actions_view(actions@) == after_navigate(old(self)@, page).1,
    {
        let mut actions: Vec<Action> = Vec::new();
        assert(actions_view(actions@) =~= Seq::<ActionView>::empty());
        self.go_to(page, &mut actions);
        if page == Page::Friends {
            self.add_with_backend(&mut actions, Action::LoadFriendFavorites);
        } else {
            assert(actions_view(actions@) =~= actions_view(actions@) + Seq::<ActionView>::empty());
        }
        actions
    }

    fn on_search_changed(&mut self, v: String) -> (actions: Vec<Action>)
        ensures
            final(self)@ == after_search_changed(old(self)@, v).0,
            actions_view(actions@) == after_search_changed(old(self)@, v).1,
    {
        let mut actions: Vec<Action> = Vec::new();
        assert(actions_view(actions@) =~= Seq::<ActionView>::empty());
        self.search_overlay_open = !is_blank_str(v.as_str());
        self.search = v;
        actions
    }

    fn on_submit_search(&mut self) -> (actions: Vec<Action>)
        ensures
            final(self)@ == after_submit_search(old(self)@).0,
            actions_view(actions@) == after_submit_search(old(self)@).1,
    {
        let mut actions: Vec<Action> = Vec::new();
        assert(actions_view(actions@) =~= Seq::<ActionView>::empty());
        if self.page.is_searchable() {
            self.search_overlay_open = false;
            self.reset_windows();
            push_action(&mut actions, Action::ResetFriendSectionRows);
            push_action(&mut actions, Action::PruneThumbnails);
            self.load_page(&mut actions);
        } else {
            self.go_to(Page::Users, &mut actions);
        }
        actions
    }

    fn on_search_page(&mut self, page: Page) -> (actions: Vec<Action>)
        ensures
            final(self)@ == after_search_page(old(self)@, page).0,
            actions_view(actions@) == after_search_page(old(self)@, page).1,
    {
        let mut actions: Vec<Action> = Vec::new();
        assert(actions_view(actions@) =~= Seq::<ActionView>::empty());
        self.go_to(page, &mut actions);
        actions
    }

    fn on_close_search_overlay(&mut self) -> (actions: Vec<Action>)
        ensures
            final(self)@ == after_close_search_overlay(old(self)@).0,
            actions_view(actions@) == after_close_search_overlay(old(self)@).1,
    {
        let mut actions: Vec<Action> = Vec::new();
        assert(actions_view(actions@) =~= Seq::<ActionView>::empty());
        self.search_overlay_open = false;
        actions
    }

    fn on_refresh(&mut self) -> (actions: Vec<Action>)
        ensures
            final(self)@ == after_refresh(old(self)@).0,
            actions_view(actions@) == after_refresh(old(self)@).1,
    {
        let mut actions: Vec<Action> = Vec::new();
        assert(actions_view(actions@) =~= Seq::<ActionView>::empty());
        let friends = self.page == Page::Friends;
        self.reset_windows();
        push_action(&mut actions, Action::ResetFriendSectionRows);
        push_action(&mut actions, Action::PruneThumbnails);
        self.load_page(&mut actions);
        if friends {
            self.add_with_backend(&mut actions, Action::LoadFriendFavorites);
        } else {
            assert(actions_view(actions@) =~= actions_view(actions@) + Seq::<ActionView>::empty());
        }
        actions
    }

    #[verifier::rlimit(100)]
    fn on_results_loaded(&mut self, r: Result<usize, String>) -> (actions: Vec<Action>)
        ensures
            final(self)@ == after_results_loaded(old(self)@, r).0,
            actions_view(actions@) == after_results_loaded(old(self)@, r).1,
    {
        let mut actions: Vec<Action> = Vec::new();
        assert(actions_view(actions@) =~= Seq::<ActionView>::empty());
        self.loading = false;
        match r {
            Ok(n) => {
                self.result_count = n;
                let count = u64_text(n as u64);
                self.notice = Some(concat(&count, " items loaded"));
                push_action(&mut actions, Action::LoadMissingThumbnails);
            },
            Err(e) => self.error = Some(e),
        }
        actions
    }

    fn on_favorite_friends_loaded(&mut self, r: Result<(), String>) -> (actions: Vec<Action>)
        ensures
            final(self)@ == after_favorite_friends_loaded(old(self)@, r).0,
            actions_view(actions@) == after_favorite_friends_loaded(old(self)@, r).1,
    {
        let mut actions: Vec<Action> = Vec::new();
        assert(actions_view(actions@) =~= Seq::<ActionView>::empty());
        match r {
            Ok(()) => {},
            Err(e) => self.error = Some(e),
        }
        actions
    }

    fn on_toggle_friend_section(&mut self, section: FriendSection) -> (actions: Vec<Action>)
        ensures
            final(self)@ == after_toggle_friend_section(old(self)@, section).0,
            actions_view(actions@) == after_toggle_friend_section(old(self)@, section).1,
    {
        let mut actions: Vec<Action> = Vec::new();
        assert(actions_view(actions@) =~= Seq::<ActionView>::empty());
        toggle_section(&mut self.collapsed_friend_sections, section);
        push_action(&mut actions, Action::LoadMissingThumbnails);
        actions
    }

    fn on_resource_scrolled(&mut self, at_end: bool) -> (actions: Vec<Action>)
        ensures
            final(self)@ == after_resource_scrolled(old(self)@, at_end).0,
            actions_view(actions@) == after_resource_scrolled(old(self)@, at_end).1,
    {
        let mut actions: Vec<Action> = Vec::new();
        assert(actions_view(actions@) =~= Seq::<ActionView>::empty());
        if at_end && self.resource_row_limit < self.result_count {
            self.resource_row_limit = if self.result_count - self.resource_row_limit > RESOURCE_ROW_INCREMENT {
                self.resource_row_limit + RESOURCE_ROW_INCREMENT
            } else {
                self.result_count
            };
            push_action(&mut actions, Action::LoadMissingThumbnails);
        }
        actions
    }

    fn on_relation_scrolled(&mut self, at_end: bool, total: usize) -> (actions: Vec<Action>)
        ensures
            final(self)@ == after_relation_scrolled(old(self)@, at_end, total).0,
            actions_view(actions@) == after_relation_scrolled(old(self)@, at_end, total).1,
    {
        let mut actions: Vec<Action> = Vec::new();
        assert(actions_view(actions@) =~= Seq::<ActionView>::empty());
        if at_end && self.relation_row_limit < total {
            self.relation_row_limit = if total - self.relation_row_limit > RELATION_ROW_INCREMENT {
                self.relation_row_limit + RELATION_ROW_INCREMENT
            } else {
                total
            };
            push_action(&mut actions, Action::LoadMissingThumbnails);
        }
        actions
    }

    fn on_toggle_nav_category(&mut self, name: String) -> (actions: Vec<Action>)
        ensures
            final(self)@ == after_toggle_nav_category(old(self)@, name).0,
            actions_view(actions@) == after_toggle_nav_category(old(self)@, name).1,
    {
        let mut actions: Vec<Action> = Vec::new();
        assert(actions_view(actions@) =~= Seq::<ActionView>::empty());
        toggle_name(&mut self.collapsed_nav_categories, name);
        actions
    }

    fn on_open_panel_selector(&mut self) -> (actions: Vec<Action>)
        ensures
            final(self)@ == after_open_panel_selector(old(self)@).0,
            actions_view(actions@) == after_open_panel_selector(old(self)@).1,
    {
        let mut actions: Vec<Action> = Vec::new();
        assert(actions_view(actions@) =~= Seq::<ActionView>::empty());
        self.panel_selector_open = true;
        actions
    }

    fn on_close_panel_selector(&mut self) -> (actions: Vec<Action>)
        ensures
            final(self)@ == after_close_panel_selector(old(self)@).0,
            actions_view(actions@) == after_close_panel_selector(old(self)@).1,
    {
        let mut actions: Vec<Action> = Vec::new();
        assert(actions_view(actions@) =~= Seq::<ActionView>::empty());
        self.panel_selector_open = false;
        actions
    }

    fn on_toggle_nav_edit_mode(&mut self) -> (actions: Vec<Action>)
        ensures
            final(self)@ == after_toggle_nav_edit_mode(old(self)@).0,
            actions_view(actions@) == after_toggle_nav_edit_mode(old(self)@).1,
    {
        let mut actions: Vec<Action> = Vec::new();
        assert(actions_view(actions@) =~= Seq::<ActionView>::empty());
        self.nav_edit_mode = !self.nav_edit_mode;
        actions
    }

    fn on_toggle_account_menu(&mut self) -> (actions: Vec<Action>)
        ensures
            final(self)@ == after_toggle_account_menu(old(self)@).0,
            actions_view(actions@) == after_toggle_account_menu(old(self)@).1,
    {
        let mut actions: Vec<Action> = Vec::new();
        assert(actions_view(actions@) =~= Seq::<ActionView>::empty());
        self.account_menu_open = !self.account_menu_open;
        actions
    }

    fn on_close_account_menu(&mut self) -> (actions: Vec<Action>)
        ensures
            final(self)@ == after_close_account_menu(old(self)@).0,
            actions_view(actions@) == after_close_account_menu(old(self)@).1,
    {
        let mut actions: Vec<Action> = Vec::new();
        assert(actions_view(actions@) =~= Seq::<ActionView>::empty());
        self.account_menu_open = false;
        actions
    }

    fn on_new_category_name_changed(&mut self, v: String) -> (actions: Vec<Action>)
        ensures
            final(self)@ == after_new_category_name_changed(old(self)@, v).0,
            actions_view(actions@) == after_new_category_name_changed(old(self)@, v).1,
    {
        let mut actions: Vec<Action> = Vec::new();
        assert(actions_view(actions@) =~= Seq::<ActionView>::empty());
        self.new_category_name = v;
        actions
    }

    fn on_create_nav_category(&mut self) -> (actions: Vec<Action>)
        ensures
            final(self)@ == after_create_nav_category(old(self)@).0,
            actions_view(actions@) == after_create_nav_category(old(self)@).1,
    {
        let mut actions: Vec<Action> = Vec::new();
        assert(actions_view(actions@) =~= Seq::<ActionView>::empty());
        if create_nav_category(&mut self.nav_categories, self.new_category_name.as_str()) {
            self.new_category_name = String::new();
        }
        actions
    }

    fn on_add_page_to_nav(&mut self, name: String, page: Page) -> (actions: Vec<Action>)
        ensures
            final(self)@ == after_add_page_to_nav(old(self)@, name, page).0,
            actions_view(actions@) == after_add_page_to_nav(old(self)@, name, page).1,
    {
        let mut actions: Vec<Action> = Vec::new();
        assert(actions_view(actions@) =~= Seq::<ActionView>::empty());
        proof {
            lemma_first_named_exists(categories_view(self.nav_categories@), name@);
        }
        add_page_to_nav(&mut self.nav_categories, name.as_str(), page);
        actions
    }

    #[verifier::rlimit(100)]
    fn on_remove_page_from_nav(&mut self, name: String, page: Page) -> (actions: Vec<Action>)
        ensures
            final(self)@ == after_remove_page_from_nav(old(self)@, name, page).0,
            actions_view(actions@) == after_remove_page_from_nav(old(self)@, name, page).1,
    {
        let mut actions: Vec<Action> = Vec::new();
        assert(actions_view(actions@) =~= Seq::<ActionView>::empty());
        proof {
            lemma_first_named_exists(categories_view(self.nav_categories@), name@);
        }
        let current = self.page;
        if remove_page_from_nav(&mut self.nav_categories, name.as_str(), page, current) {
            self.page = Page::Dashboard;
            self.load_page(&mut actions);
        }
        actions
    }

    fn on_open_item(&mut self, index: usize) -> (actions: Vec<Action>)
        ensures
            final(self)@ == after_open_item(old(self)@, index).0,
            actions_view(actions@) == after_open_item(old(self)@, index).1,
    {
        let mut actions: Vec<Action> = Vec::new();
        assert(actions_view(actions@) =~= Seq::<ActionView>::empty());
        if index < self.result_count {
            self.item_open = true;
            self.selected_page = self.page;
            self.detail_tab = DetailTab::Overview;
            self.relation_row_limit = INITIAL_RELATION_ROWS;
            push_action(&mut actions, Action::SelectResult(index));
            push_action(&mut actions, Action::ResetRelations);
            push_action(&mut actions, Action::PruneThumbnails);
            if !self.has_backend {
                self.detail_loading = false;
            } else {
                self.detail_loading = true;
                push_action(&mut actions, Action::LoadSelectedDetail(item_source_exec(self.page)));
                if self.page == Page::Users {
                    self.relations_loading = true;
                    push_action(&mut actions, Action::LoadSelectedRelations);
                } else {
                    self.relations_loading = false;
                }
            }
        }
        actions
    }

    fn on_open_friend(&mut self, user_id: String, known: bool) -> (actions: Vec<Action>)
        ensures
            final(self)@ == after_open_friend(old(self)@, user_id, known).0,
            actions_view(actions@) == after_open_friend(old(self)@, user_id, known).1,
    {
        let mut actions: Vec<Action> = Vec::new();
        assert(actions_view(actions@) =~= Seq::<ActionView>::empty());
        if known {
            self.item_open = true;
            self.selected_page = Page::Friends;
            self.detail_tab = DetailTab::Overview;
            self.relation_row_limit = INITIAL_RELATION_ROWS;
            self.detail_loading = self.has_backend;
            self.relations_loading = self.has_backend;
            push_action(&mut actions, Action::SelectFriend(user_id));
            push_action(&mut actions, Action::ResetRelations);
            push_action(&mut actions, Action::PruneThumbnails);
            if self.has_backend {
                push_action(&mut actions, Action::LoadSelectedDetail(DetailSource::User));
                push_action(&mut actions, Action::LoadSelectedRelations);
            }
        }
        actions
    }

    fn on_open_related(&mut self, page: Page) -> (actions: Vec<Action>)
        ensures
            final(self)@ == after_open_related(old(self)@, page).0,
            actions_view(actions@) == after_open_related(old(self)@, page).1,
    {
        let mut actions: Vec<Action> = Vec::new();
        assert(actions_view(actions@) =~= Seq::<ActionView>::empty());
        self.item_open = true;
        self.selected_page = page;
        self.detail_tab = DetailTab::Overview;
        self.relation_row_limit = INITIAL_RELATION_ROWS;
        self.relations_loading = false;
        self.detail_loading = self.has_backend;
        push_action(&mut actions, Action::SelectRelated);
        push_action(&mut actions, Action::ResetRelations);
        push_action(&mut actions, Action::PruneThumbnails);
        self.add_with_backend(&mut actions, Action::LoadSelectedDetail(related_source_exec(page)));
        actions
    }

    fn on_close_item(&mut self) -> (actions: Vec<Action>)
        ensures
            final(self)@ == after_close_item(old(self)@).0,
            actions_view(actions@) == after_close_item(old(self)@).1,
    {
        let mut actions: Vec<Action> = Vec::new();
        assert(actions_view(actions@) =~= Seq::<ActionView>::empty());
        self.item_open = false;
        self.detail_loading = false;
        self.relations_loading = false;
        push_action(&mut actions, Action::ClearSelection);
        push_action(&mut actions, Action::ResetRelations);
        push_action(&mut actions, Action::PruneThumbnails);
        actions
    }

    fn on_detail_loaded(&mut self, r: Result<(), String>) -> (actions: Vec<Action>)
        ensures
            final(self)@ == after_detail_loaded(old(self)@, r).0,
            actions_view(actions@) == after_detail_loaded(old(self)@, r).1,
    {
        let mut actions: Vec<Action> = Vec::new();
        assert(actions_view(actions@) =~= Seq::<ActionView>::empty());
        self.detail_loading = false;
        match r {
            Ok(()) => {},
            Err(e) => self.error = Some(e),
        }
        actions
    }

    fn on_detail_tab_selected(&mut self, tab: DetailTab) -> (actions: Vec<Action>)
        ensures
            final(self)@ == after_detail_tab_selected(old(self)@, tab).0,
            actions_view(actions@) == after_detail_tab_selected(old(self)@, tab).1,
    {
        let mut actions: Vec<Action> = Vec::new();
        assert(actions_view(actions@) =~= Seq::<ActionView>::empty());
        self.detail_tab = tab;
        self.relation_row_limit = INITIAL_RELATION_ROWS;
        push_action(&mut actions, Action::LoadMissingThumbnails);
        actions
    }

    fn on_user_relations_loaded(&mut self, r: Result<(), String>) -> (actions: Vec<Action>)
        ensures
            final(self)@ == after_user_relations_loaded(old(self)@, r).0,
            actions_view(actions@) == after_user_relations_loaded(old(self)@, r).1,
    {
        let mut actions: Vec<Action> = Vec::new();
        assert(actions_view(actions@) =~= Seq::<ActionView>::empty());
        self.relations_loading = false;
        match r {
            Ok(()) => push_action(&mut actions, Action::LoadMissingThumbnails),
            Err(e) => self.error = Some(e),
        }
        actions
    }

    fn on_synchronize(&mut self) -> (actions: Vec<Action>)
        ensures
            final(self)@ == after_synchronize(old(self)@).0,
            actions_view(actions@) == after_synchronize(old(self)@).1,
    {
        let mut actions: Vec<Action> = Vec::new();
        assert(actions_view(actions@) =~= Seq::<ActionView>::empty());
        if self.has_backend {
            self.loading = true;
            push_action(&mut actions, Action::Synchronize);
        }
        actions
    }

    #[verifier::rlimit(100)]
    fn on_synchronize_finished(&mut self, r: Result<(), String>) -> (actions: Vec<Action>)
        ensures
            final(self)@ == after_synchronize_finished(old(self)@, r).0,
            actions_view(actions@) == after_synchronize_finished(old(self)@, r).1,
    {
        let mut actions: Vec<Action> = Vec::new();
        assert(actions_view(actions@) =~= Seq::<ActionView>::empty());
        self.loading = false;
        match r {
            Ok(()) => {
                self.notice = Some(owned("Synchronization complete"));
                self.add_with_backend(&mut actions, Action::LoadFriendFavorites);
            },
            Err(e) => self.error = Some(e),
        }
        actions
    }

    fn on_unfriend(&mut self, id: String) -> (actions: Vec<Action>)
        ensures
            final(self)@ == after_unfriend(old(self)@, id).0,
            actions_view(actions@) == after_unfriend(old(self)@, id).1,
    {
        let mut actions: Vec<Action> = Vec::new();
        assert(actions_view(actions@) =~= Seq::<ActionView>::empty());
        self.add_with_backend(&mut actions, Action::Unfriend(id));
        actions
    }

    fn on_leave_group(&mut self, id: String) -> (actions: Vec<Action>)
        ensures
            final(self)@ == after_leave_group(old(self)@, id).0,
            actions_view(actions@) == after_leave_group(old(self)@, id).1,
    {
        let mut actions: Vec<Action> = Vec::new();
        assert(actions_view(actions@) =~= Seq::<ActionView>::empty());
        self.add_with_backend(&mut actions, Action::LeaveGroup(id));
        actions
    }

    fn on_remove_favorite(&mut self, id: String) -> (actions: Vec<Action>)
        ensures
            final(self)@ == after_remove_favorite(old(self)@, id).0,
            actions_view(actions@) == after_remove_favorite(old(self)@, id).1,
    {
        let mut actions: Vec<Action> = Vec::new();
        assert(actions_view(actions@) =~= Seq::<ActionView>::empty());
        self.add_with_backend(&mut actions, Action::RemoveFavorite(id));
        actions
    }

    fn on_delete_notification(&mut self, id: String) -> (actions: Vec<Action>)
        ensures
            final(self)@ == after_delete_notification(old(self)@, id).0,
            actions_view(actions@) == after_delete_notification(old(self)@, id).1,
    {
        let mut actions: Vec<Action> = Vec::new();
        assert(actions_view(actions@) =~= Seq::<ActionView>::empty());
        self.add_with_backend(&mut actions, Action::DeleteNotification(id));
        actions
    }

    fn on_resource_action(&mut self, page: Page, id: String) -> (actions: Vec<Action>)
        ensures
            final(self)@ == after_resource_action(old(self)@, page, id).0,
            actions_view(actions@) == after_resource_action(old(self)@, page, id).1,
    {
        let mut actions: Vec<Action> = Vec::new();
        assert(actions_view(actions@) =~= Seq::<ActionView>::empty());
        self.add_with_backend(&mut actions, Action::ResourceAction(page, id));
        actions
    }

    fn on_api_method_changed(&mut self, v: String) -> (actions: Vec<Action>)
        ensures
            final(self)@ == after_api_method_changed(old(self)@, v).0,
            actions_view(actions@) == after_api_method_changed(old(self)@, v).1,
    {
        let mut actions: Vec<Action> = Vec::new();
        assert(actions_view(actions@) =~= Seq::<ActionView>::empty());
        self.api_method = v;
        actions
    }

    fn on_api_path_changed(&mut self, v: String) -> (actions: Vec<Action>)
        ensures
            final(self)@ == after_api_path_changed(old(self)@, v).0,
            actions_view(actions@) == after_api_path_changed(old(self)@, v).1,
    {
        let mut actions: Vec<Action> = Vec::new();
        assert(actions_view(actions@) =~= Seq::<ActionView>::empty());
        self.api_path = v;
        actions
    }

    fn on_api_body_changed(&mut self, v: String) -> (actions: Vec<Action>)
        ensures
            final(self)@ == after_api_body_changed(old(self)@, v).0,
            actions_view(actions@) == after_api_body_changed(old(self)@, v).1,
    {
        let mut actions: Vec<Action> = Vec::new();
        assert(actions_view(actions@) =~= Seq::<ActionView>::empty());
        self.api_body = v;
        actions
    }

    fn on_execute_api(&mut self) -> (actions: Vec<Action>)
        ensures
            final(self)@ == after_execute_api(old(self)@).0,
            actions_view(actions@) == after_execute_api(old(self)@).1,
    {
        let mut actions: Vec<Action> = Vec::new();
        assert(actions_view(actions@) =~= Seq::<ActionView>::empty());
        if self.has_backend {
            self.loading = true;
            push_action(
                &mut actions,
                Action::ExecuteApi {
                    method: self.api_method.clone(),
                    path: self.api_path.clone(),
                    body: self.api_body.clone(),
                },
            );
        }
        actions
    }

    fn on_api_executed(&mut self, r: Result<(), String>) -> (actions: Vec<Action>)
        ensures
            final(self)@ == after_api_executed(old(self)@, r).0,
            actions_view(actions@) == after_api_executed(old(self)@, r).1,
    {
        let mut actions: Vec<Action> = Vec::new();
        assert(actions_view(actions@) =~= Seq::<ActionView>::empty());
        self.loading = false;
        match r {
            Ok(()) => {},
            Err(e) => self.error = Some(e),
        }
        actions
    }

    fn on_action_finished(&mut self, r: Result<String, String>) -> (actions: Vec<Action>)
        ensures
            final(self)@ == after_action_finished(old(self)@, r).0,
            actions_view(actions@) == after_action_finished(old(self)@, r).1,
    {
        match &r {
            Ok(n) => self.notice = Some(n.clone()),
            Err(e) => self.error = Some(e.clone()),
        }
        self.item_open = false;
        let ghost t = match r {
            Ok(n) => ClientStateView { notice: Some(n@), ..old(self)@ },
            Err(e) => failed(old(self)@, e@),
        };
        assert(self@ == ClientStateView { item_open: false, ..t });
        self.reload_after_action()
    }

    fn reload_after_action(&mut self) -> (actions: Vec<Action>)
        ensures
            final(self)@ == reloaded_after_action(old(self)@).0,
            actions_view(actions@) == reloaded_after_action(old(self)@).1,
    {
        let mut actions: Vec<Action> = Vec::new();
        assert(actions_view(actions@) =~= Seq::<ActionView>::empty());
        push_action(&mut actions, Action::ClearSelection);
        self.load_page(&mut actions);
        self.add_with_backend(&mut actions, Action::LoadFriendFavorites);
        assert(actions_view(actions@) =~= reloaded_after_action(old(self)@).1);
        actions
    }

    fn on_clear_feedback(&mut self) -> (actions: Vec<Action>)
        ensures
            final(self)@ == after_clear_feedback(old(self)@).0,
            actions_view(actions@) == after_clear_feedback(old(self)@).1,
    {
        let mut actions: Vec<Action> = Vec::new();
        assert(actions_view(actions@) =~= Seq::<ActionView>::empty());
        self.error = None;
        self.notice = None;
        actions
    }
}

/// Where some category is named `name`, a first one is.
proof fn lemma_first_named_exists(cats: Seq<NavCategoryView>, name: Seq<char>)
    ensures
        !none_named(cats, name) ==> exists|i: int| first_named(cats, name, i),
    decreases cats.len(),
{
    if cats.len() > 0 && !none_named(cats, name) {
        let d = cats.drop_last();
        if none_named(d, name) {
            let i = cats.len() - 1;
            assert forall|j: int| 0 <= j < i implies #[trigger] cats[j].name != name by {
                assert(cats[j] == d[j]);
            }
            assert(first_named(cats, name, i));
        } else {
            lemma_first_named_exists(d, name);
            let i = choose|i: int| first_named(d, name, i);
            assert forall|j: int| 0 <= j < i implies #[trigger] cats[j].name != name by {
                assert(cats[j] == d[j]);
            }
            assert(cats[i] == d[i]);
            assert(first_named(cats, name, i));
        }
    }
}

} // verus!
