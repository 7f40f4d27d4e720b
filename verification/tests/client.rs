use vrcx_bir::ui::paging::{PageAction, PageOutcome, Pager, PAGE_SIZE};
use vrcx_bir::json::Json;
use vrcx_bir::store::reducer::RecentPipelineEvent;
use vrcx_bir::store::state::empty_presence;
use vrcx_bir::ui::world_names::missing_world_ids;
use vrcx_bir::websocket::event::{FriendOnlineContent, PipelineEvent};
use vrcx_bir::ui::thumbnails::required_thumbnail_urls;
use vrcx_bir::screen_overlay::config::EventRule;
use vrcx_bir::ui::client::apply_rule_edit;
use vrcx_bir::session::auth::TwoFactorMethod;
use vrcx_bir::ui::client::{
    Action, ClientState, DetailSource, LoginOutcome, Message, RuleEdit, INITIAL_RELATION_ROWS,
    INITIAL_RESOURCE_ROWS,
};
use vrcx_bir::ui::friends::FriendSection;
use vrcx_bir::ui::pages::{Locale, Page};

fn client() -> ClientState {
    let (mut state, actions) = ClientState::boot(Ok(()), Locale::English, "Essentials".to_string());
    assert_eq!(actions, vec![Action::Boot]);
    assert!(state.loading);
    let actions = state.update(Message::BootFinished(Ok(false)));
    assert_eq!(actions, vec![Action::LoadMissingThumbnails]);
    assert!(!state.loading && !state.signed_in);
    state
}

#[test]
fn boot_without_backend_shows_the_error() {
    let (state, actions) = ClientState::boot(Err("no data dir".to_string()), Locale::French, "Essentiels".to_string());
    assert!(actions.is_empty());
    assert!(!state.loading && !state.has_backend);
    assert_eq!(state.error.as_deref(), Some("no data dir"));
    assert_eq!(state.page, Page::Dashboard);
    assert_eq!(state.collapsed_friend_sections, vec![FriendSection::Offline]);
    assert_eq!(state.nav_categories[0].name, "Essentiels");
}

#[test]
fn sign_in_goes_through_two_factor() {
    let mut state = client();
    state.update(Message::UsernameChanged("alice".to_string()));
    state.update(Message::PasswordChanged("secret".to_string()));
    let actions = state.update(Message::Login);
    assert_eq!(
        actions,
        vec![Action::Login { username: "alice".to_string(), password: "secret".to_string() }]
    );
    assert!(state.loading);
    let actions = state.update(Message::LoginFinished(Ok(LoginOutcome::TwoFactorRequired(vec![
        TwoFactorMethod::EmailOtp,
        TwoFactorMethod::Totp,
    ]))));
    assert!(actions.is_empty());
    assert!(!state.loading);
    assert_eq!(state.selected_two_factor, Some(TwoFactorMethod::EmailOtp));
    state.update(Message::TwoFactorCodeChanged("123456".to_string()));
    let actions = state.update(Message::VerifyTwoFactor);
    assert_eq!(
        actions,
        vec![Action::VerifyTwoFactor { method: TwoFactorMethod::EmailOtp, code: "123456".to_string() }]
    );
    let actions = state.update(Message::LoginFinished(Ok(LoginOutcome::Authenticated)));
    assert_eq!(
        actions,
        vec![Action::LoadFriendFavorites, Action::LoadSavedSessions, Action::LoadMissingThumbnails]
    );
    assert!(state.signed_in);
    assert!(state.password.is_empty());
}

#[test]
fn invalid_credentials_are_reported() {
    let mut state = client();
    let actions = state.update(Message::LoginFinished(Ok(LoginOutcome::InvalidCredentials)));
    assert!(actions.is_empty());
    assert_eq!(state.error.as_deref(), Some("Invalid credentials"));
    state.update(Message::ClearFeedback);
    assert_eq!(state.error, None);
}

#[test]
fn navigating_to_friends_loads_the_page_and_favorites() {
    let mut state = client();
    state.update(Message::SearchChanged("cafe".to_string()));
    assert!(state.search_overlay_open);
    let actions = state.update(Message::Navigate(Page::Friends));
    assert_eq!(
        actions,
        vec![
            Action::ClearResults,
            Action::ClearSelection,
            Action::ResetRelations,
            Action::ResetFriendSectionRows,
            Action::PruneThumbnails,
            Action::LoadPage { page: Page::Friends, query: "cafe".to_string() },
            Action::LoadFriendFavorites,
        ]
    );
    assert!(!state.search_overlay_open && state.loading);
    let actions = state.update(Message::SubmitSearch);
    assert_eq!(actions.last(), Some(&Action::LoadPage { page: Page::Users, query: "cafe".to_string() }));
    assert_eq!(state.page, Page::Users);
}

#[test]
fn results_grow_as_the_list_scrolls() {
    let mut state = client();
    let actions = state.update(Message::ResultsLoaded(Ok(60)));
    assert_eq!(actions, vec![Action::LoadMissingThumbnails]);
    assert_eq!(state.notice.as_deref(), Some("60 items loaded"));
    assert_eq!(state.resource_row_limit, INITIAL_RESOURCE_ROWS);
    assert!(state.update(Message::ResourceScrolled { at_end: false }).is_empty());
    state.update(Message::ResourceScrolled { at_end: true });
    assert_eq!(state.resource_row_limit, 56);
    state.update(Message::ResourceScrolled { at_end: true });
    assert_eq!(state.resource_row_limit, 60);
    assert!(state.update(Message::ResourceScrolled { at_end: true }).is_empty());
    state.update(Message::RelationScrolled { at_end: true, total: 40 });
    assert_eq!(state.relation_row_limit, 40);
    state.update(Message::DetailTabSelected(vrcx_bir::ui::client::DetailTab::Groups));
    assert_eq!(state.relation_row_limit, INITIAL_RELATION_ROWS);
}

#[test]
fn opening_a_user_loads_detail_and_relations() {
    let mut state = client();
    state.update(Message::Navigate(Page::Users));
    state.update(Message::ResultsLoaded(Ok(2)));
    assert!(state.update(Message::OpenItem(2)).is_empty());
    let actions = state.update(Message::OpenItem(1));
    assert_eq!(
        actions,
        vec![
            Action::SelectResult(1),
            Action::ResetRelations,
            Action::PruneThumbnails,
            Action::LoadSelectedDetail(DetailSource::User),
            Action::LoadSelectedRelations,
        ]
    );
    assert!(state.item_open && state.detail_loading && state.relations_loading);
    state.update(Message::DetailLoaded(Err("timeout".to_string())));
    assert!(!state.detail_loading);
    assert_eq!(state.error.as_deref(), Some("timeout"));
    state.update(Message::CloseItem);
    assert!(!state.item_open && !state.relations_loading);
}

#[test]
fn signing_out_forgets_the_account() {
    let mut state = client();
    state.update(Message::LoginFinished(Ok(LoginOutcome::Authenticated)));
    state.update(Message::ResultsLoaded(Ok(5)));
    let actions = state.update(Message::Logout);
    assert_eq!(actions, vec![Action::Logout]);
    let actions = state.update(Message::LogoutFinished(Ok(())));
    assert_eq!(
        actions,
        vec![
            Action::ResetOverlay,
            Action::ForgetSnapshot,
            Action::ClearResults,
            Action::ClearSelection,
            Action::ResetRelations,
            Action::ForgetThumbnails,
            Action::ForgetFavorites,
            Action::LoadSavedSessions,
            Action::CloseOverlayWindow,
        ]
    );
    assert!(!state.signed_in && state.result_count == 0);
    let actions = state.update(Message::SwitchSessionFinished(Ok(false)));
    assert_eq!(actions, vec![Action::LoadSavedSessions]);
    assert_eq!(state.error.as_deref(), Some("account.session_not_found"));
}

#[test]
fn navigation_categories_are_edited() {
    let mut state = client();
    state.update(Message::NewCategoryNameChanged("  Social ".to_string()));
    state.update(Message::CreateNavCategory);
    assert_eq!(state.nav_categories.len(), 2);
    assert_eq!(state.nav_categories[1].name, "Social");
    assert!(state.new_category_name.is_empty());
    state.update(Message::NewCategoryNameChanged("social".to_string()));
    state.update(Message::CreateNavCategory);
    assert_eq!(state.nav_categories.len(), 2);
    state.update(Message::AddPageToNav("Social".to_string(), Page::Jams));
    assert_eq!(state.nav_categories[1].pages, vec![Page::Jams]);
    state.update(Message::Navigate(Page::Jams));
    let actions = state.update(Message::RemovePageFromNav("Social".to_string(), Page::Jams));
    assert_eq!(state.page, Page::Dashboard);
    assert_eq!(actions, vec![Action::LoadPage { page: Page::Dashboard, query: String::new() }]);
}

#[test]
fn overlay_rule_edits_name_the_edited_rule() {
    let mut state = client();
    let actions = state.update(Message::SelectOverlayRule("friend-offline".to_string()));
    assert_eq!(actions, vec![Action::ShowRuleSettings("friend-offline".to_string())]);
    let actions = state.update(Message::EditOverlayRule(RuleEdit::ToggleEnabled));
    assert_eq!(
        actions,
        vec![Action::EditOverlayRule { rule: "friend-offline".to_string(), edit: RuleEdit::ToggleEnabled }]
    );
    let actions = state.update(Message::ReloadScreenOverlay);
    assert_eq!(
        actions,
        vec![
            Action::ReloadOverlay,
            Action::ShowRuleSettings("friend-offline".to_string()),
            Action::CloseOverlayWindow,
        ]
    );
    assert_eq!(state.notice.as_deref(), Some("screen_overlay.reloaded"));
}

#[test]
fn rule_edits_change_the_rule() {
    let mut rule = EventRule::default();
    let enabled = rule.enabled;
    apply_rule_edit(&mut rule, RuleEdit::ToggleEnabled);
    assert_eq!(rule.enabled, !enabled);
    apply_rule_edit(&mut rule, RuleEdit::Title("Hi {name}".to_string()));
    assert_eq!(rule.title, "Hi {name}");
    apply_rule_edit(&mut rule, RuleEdit::ToggleUser("usr_1".to_string()));
    assert_eq!(rule.selected_users, vec!["usr_1".to_string()]);
    assert!(!rule.favorites_only);
    apply_rule_edit(&mut rule, RuleEdit::Favorites);
    assert!(rule.selected_users.is_empty() && rule.favorites_only);
}

#[test]
fn required_thumbnails_follow_the_rows_shown() {
    let some = |s: &str| Some(s.to_string());
    let results = vec![some("a"), None, some("b"), some("c")];
    let relations = vec![some("r1"), some("r2")];
    let members = vec![None, some("m1")];
    let others = vec!["o".to_string()];
    assert_eq!(
        required_thumbnail_urls(&results, 3, &relations, &members, 1, &others),
        vec!["a", "b", "r1", "o"]
    );
    assert_eq!(
        required_thumbnail_urls(&results, 10, &relations, &members, 200, &others),
        vec!["a", "b", "c", "r1", "r2", "m1", "o"]
    );
}

#[test]
fn missing_world_names_are_asked_for_once() {
    let mut a = empty_presence("usr_a");
    a.world_id = Some("wrld_1".to_string());
    a.location = Some("wrld_1:42~private".to_string());
    a.traveling_to_location = Some("wrld_2:7".to_string());
    let mut b = empty_presence("usr_b");
    b.location = Some("private".to_string());
    b.world_id = Some("wrld_3".to_string());
    let events = vec![RecentPipelineEvent {
        sequence: 1,
        received_at_unix_ms: 1,
        event: PipelineEvent::FriendOnline(FriendOnlineContent {
            user_id: "usr_c".to_string(),
            user: Json::Null,
            platform: "standalonewindows".to_string(),
            location: "wrld_4:1".to_string(),
            can_request_invite: false,
        }),
    }];
    let known = vec!["wrld_3".to_string()];
    let pending = vec!["wrld_2".to_string()];
    let mut ids = missing_world_ids(&vec![a, b], &events, &known, &pending);
    ids.sort();
    assert_eq!(ids, vec!["wrld_1", "wrld_4"]);
}

#[test]
fn pages_are_read_until_a_short_one() {
    let (mut pager, first) = Pager::start();
    assert_eq!(first, PageAction::Fetch { offset: 0, limit: PAGE_SIZE });
    assert_eq!(pager.next(PageOutcome::Loaded(100)), PageAction::Fetch { offset: 100, limit: 100 });
    assert_eq!(pager.next(PageOutcome::Loaded(100)), PageAction::Fetch { offset: 200, limit: 100 });
    assert_eq!(pager.next(PageOutcome::Loaded(42)), PageAction::Finish);
    assert!(pager.done);
    let (mut pager, _) = Pager::start();
    assert_eq!(
        pager.next(PageOutcome::Failed("HTTP 500".to_string())),
        PageAction::Abort("HTTP 500".to_string())
    );
}
