use volume_page::context::AppContext;
use volume_page::events::{Key, MessageResponse, Transition};
use volume_page::modal::{ModalKind, ModalState};
use volume_page::page::{Effect, PageError, Volume, ESCALATION_PROMPT};
use volume_page::sorting::{SortOrder, VolumeSortField};
use volume_page::volume::VolumeRecord;

fn rec(name: &str, driver: &str, mountpoint: &str, created: Option<&str>) -> VolumeRecord {
    VolumeRecord::new(
        name.to_string(),
        driver.to_string(),
        mountpoint.to_string(),
        created.map(|c| c.to_string()),
    )
}

fn named(names: &[&str]) -> Vec<VolumeRecord> {
    names.iter().map(|n| rec(n, "local", "/mnt", None)).collect()
}

fn names(page: &Volume) -> Vec<String> {
    page.volumes.iter().map(|v| v.name.clone()).collect()
}

fn page_with(list: Vec<VolumeRecord>) -> Volume {
    let mut page = Volume::new();
    page.initialise(AppContext::empty(), list);
    page
}

fn press(page: &mut Volume, key: Key) -> MessageResponse {
    page.update(key).expect("key handled").response
}

#[test]
fn new_page_defaults() {
    let page = Volume::new();
    assert_eq!(page.name, "Volumes");
    assert!(page.volumes.is_empty());
    assert_eq!(page.selected, None);
    assert!(page.modal.is_none());
    assert_eq!(page.sort_state.field, VolumeSortField::Name);
    assert_eq!(page.sort_state.order, SortOrder::Ascending);
    assert!(page.show_dangling);
}

#[test]
fn failed_delete_opens_forced_dialog() {
    let mut page = page_with(named(&["v1", "v2", "v3"]));
    page.selected = Some(1);
    assert_eq!(press(&mut page, Key::Ctrl('d')), MessageResponse::Consumed);
    let m = page.modal.as_ref().expect("dialog open");
    assert_eq!(m.discriminator, ModalKind::DeleteVolume);
    assert_eq!(
        m.state,
        ModalState::Open("Are you sure you wish to delete volume v2?".to_string())
    );
    let r = page.update(Key::Enter).expect("confirm handled");
    assert_eq!(r.response, MessageResponse::Consumed);
    match r.effect {
        Effect::Run(a) => {
            assert_eq!(a.name, "v2");
            assert!(!a.force);
        }
        other => panic!("expected a deletion, got {:?}", other),
    }
    assert!(page.finish_action(false).is_ok());
    let m = page.modal.as_ref().expect("escalated dialog open");
    assert_eq!(m.discriminator, ModalKind::ForceDeleteVolume);
    assert_eq!(m.state, ModalState::Open(ESCALATION_PROMPT.to_string()));
    let a = m.action.as_ref().expect("action kept");
    assert_eq!(a.name, "v2");
    assert!(a.force);
}

#[test]
fn forced_delete_failure_is_reported() {
    let mut page = page_with(named(&["v1", "v2", "v3"]));
    page.selected = Some(1);
    press(&mut page, Key::Ctrl('d'));
    page.update(Key::Enter).unwrap();
    page.finish_action(false).unwrap();
    let r = page.update(Key::Enter).unwrap();
    assert!(matches!(r.effect, Effect::Run(ref a) if a.force && a.name == "v2"));
    assert_eq!(page.finish_action(false), Err(PageError::ActionFailed));
    assert!(page.modal.is_none());
}

#[test]
fn successful_delete_closes_dialog() {
    let mut page = page_with(named(&["v1"]));
    press(&mut page, Key::Ctrl('d'));
    page.update(Key::Enter).unwrap();
    assert_eq!(page.finish_action(true), Ok(()));
    assert!(page.modal.is_none());
}

#[test]
fn cancel_closes_dialog_without_action() {
    let mut page = page_with(named(&["v1", "v2"]));
    press(&mut page, Key::Ctrl('d'));
    let r = page.update(Key::Esc).unwrap();
    assert_eq!(r.response, MessageResponse::Consumed);
    assert!(matches!(r.effect, Effect::Nothing));
    assert!(page.modal.is_none());
}

#[test]
fn open_dialog_takes_every_key() {
    let mut page = page_with(named(&["v1", "v2"]));
    press(&mut page, Key::Ctrl('d'));
    let r = page.update(Key::Down).unwrap();
    assert_eq!(r.response, MessageResponse::Consumed);
    assert_eq!(page.selected, Some(0));
    assert!(page.modal.is_some());
}

#[test]
fn outcome_without_dialog_is_an_error() {
    let mut page = page_with(named(&["v1"]));
    assert_eq!(page.finish_action(true), Err(PageError::ModalMissing));
}

#[test]
fn delete_without_selection_not_consumed() {
    let mut page = page_with(vec![]);
    assert_eq!(press(&mut page, Key::Ctrl('d')), MessageResponse::NotConsumed);
    assert!(page.modal.is_none());
}

#[test]
fn name_sort_toggles_to_descending() {
    let mut page = page_with(named(&["b", "c", "a"]));
    assert_eq!(names(&page), vec!["a", "b", "c"]);
    press(&mut page, Key::Char('N'));
    assert_eq!(page.sort_state.order, SortOrder::Descending);
    assert_eq!(names(&page), vec!["c", "b", "a"]);
    press(&mut page, Key::Char('N'));
    assert_eq!(page.sort_state.order, SortOrder::Ascending);
    assert_eq!(names(&page), vec!["a", "b", "c"]);
}

#[test]
fn other_field_sorts_ascending() {
    let mut page = page_with(named(&["a"]));
    press(&mut page, Key::Char('N'));
    press(&mut page, Key::Char('D'));
    assert_eq!(page.sort_state.field, VolumeSortField::Driver);
    assert_eq!(page.sort_state.order, SortOrder::Ascending);
    press(&mut page, Key::Char('M'));
    assert_eq!(page.sort_state.field, VolumeSortField::Mountpoint);
    assert_eq!(page.sort_state.order, SortOrder::Ascending);
}

#[test]
fn sort_is_stable_both_ways() {
    let list = vec![
        rec("x1", "zfs", "/a", None),
        rec("x2", "local", "/b", None),
        rec("x3", "zfs", "/c", None),
        rec("x4", "local", "/d", None),
    ];
    let mut page = page_with(list);
    press(&mut page, Key::Char('D'));
    assert_eq!(names(&page), vec!["x2", "x4", "x1", "x3"]);
    press(&mut page, Key::Char('D'));
    assert_eq!(names(&page), vec!["x1", "x3", "x2", "x4"]);
    press(&mut page, Key::Char('D'));
    assert_eq!(names(&page), vec!["x2", "x4", "x1", "x3"]);
}

#[test]
fn unknown_creation_time_sorts_first() {
    let list = vec![
        rec("late", "local", "/a", Some("2024-05-01")),
        rec("none", "local", "/b", None),
        rec("early", "local", "/c", Some("2023-01-01")),
    ];
    let mut page = page_with(list);
    press(&mut page, Key::Char('C'));
    assert_eq!(names(&page), vec!["none", "early", "late"]);
    press(&mut page, Key::Char('C'));
    assert_eq!(names(&page), vec!["late", "early", "none"]);
}

#[test]
fn down_at_last_entry_stays() {
    let mut page = page_with(named(&["a", "b", "c"]));
    page.selected = Some(2);
    assert_eq!(press(&mut page, Key::Down), MessageResponse::Consumed);
    assert_eq!(page.selected, Some(2));
}

#[test]
fn moves_stay_in_bounds() {
    let mut page = page_with(named(&["a", "b", "c"]));
    assert_eq!(page.selected, Some(0));
    press(&mut page, Key::Up);
    assert_eq!(page.selected, Some(0));
    press(&mut page, Key::Char('j'));
    assert_eq!(page.selected, Some(1));
    press(&mut page, Key::Char('G'));
    assert_eq!(page.selected, Some(2));
    press(&mut page, Key::Char('k'));
    assert_eq!(page.selected, Some(1));
    press(&mut page, Key::Char('g'));
    assert_eq!(page.selected, Some(0));
}

#[test]
fn bottom_on_empty_list_keeps_no_selection() {
    let mut page = page_with(vec![]);
    assert_eq!(page.selected, None);
    press(&mut page, Key::Char('G'));
    assert_eq!(page.selected, None);
    press(&mut page, Key::Down);
    assert_eq!(page.selected, None);
}

#[test]
fn refresh_clamps_selection() {
    let mut page = page_with(named(&["a", "b", "c"]));
    page.selected = Some(2);
    page.refresh(named(&["a"]));
    assert_eq!(page.selected, Some(0));
    page.refresh(vec![]);
    assert_eq!(page.selected, None);
}

#[test]
fn dangling_toggle_flips() {
    let mut page = page_with(named(&["a"]));
    assert_eq!(press(&mut page, Key::Alt('d')), MessageResponse::Consumed);
    assert!(!page.show_dangling);
    press(&mut page, Key::Alt('d'));
    assert!(page.show_dangling);
}

#[test]
fn unbound_key_not_consumed() {
    let mut page = page_with(named(&["a"]));
    assert_eq!(press(&mut page, Key::Char('x')), MessageResponse::NotConsumed);
    assert_eq!(page.selected, Some(0));
}

#[test]
fn describe_without_selection_fails() {
    let mut page = page_with(vec![]);
    assert!(matches!(page.update(Key::Char('d')), Err(PageError::NoVolumeSelected)));
}

#[test]
fn drill_down_and_back_keeps_selection() {
    let mut page = page_with(named(&["a", "b", "c"]));
    page.selected = Some(2);
    let r = page.update(Key::Char('d')).unwrap();
    let cx = match r.effect {
        Effect::Send(Transition::ToDescribeContainerPage(cx)) => cx,
        other => panic!("expected a describe transition, got {:?}", other),
    };
    assert_eq!(cx.docker_volume.as_ref().unwrap().name, "c");
    let back = match *cx.continuation.expect("continuation") {
        Transition::ToVolumePage(back) => back,
        other => panic!("expected a return to the volume page, got {:?}", other),
    };
    let mut again = Volume::new();
    again.initialise(back, named(&["c", "a", "b"]));
    let i = again.selected.unwrap();
    assert_eq!(again.volumes[i].name, "c");
}

#[test]
fn initialise_without_match_selects_first() {
    let mut page = Volume::new();
    let cx = AppContext { docker_volume: Some(rec("gone", "local", "/x", None)), continuation: None };
    page.initialise(cx, named(&["b", "a"]));
    assert_eq!(page.selected, Some(0));
    assert_eq!(names(&page), vec!["a", "b"]);
}
