use vstd::prelude::*;
use crate::context::{drill_down_context, make_drill_down_context, AppContext};
use crate::events::{Key, MessageResponse, Transition};
use crate::modal::{
    is_cancel_key, is_confirm_key, outcome_of, ActionOutcome, BooleanModal, DeleteVolume,
    ModalEvent, ModalKind, ModalState,
};
use crate::navigation::{
    bottom_selection, clamp_selection, clamped_selection, decrement_selection, first_selection,
    increment_selection, last_selection, next_selection, prev_selection, selection_valid,
    top_selection,
};
use crate::sorting::{is_stable_sort_of, sort_volumes, toggled, SortState, VolumeSortField};
use crate::volume::VolumeRecord;

verus! {

pub const NAME: &'static str = "Volumes";

pub const DELETE_TITLE: &'static str = "Delete";

pub const DELETE_PROMPT_START: &'static str = "Are you sure you wish to delete volume ";

pub const DELETE_PROMPT_END: &'static str = "?";

pub const ESCALATION_PROMPT: &'static str =
    "An error occurred deleting this volume; would you like to try to force remove?";

/// What a key asks of the volume list when no dialog is open.
#[derive(Debug, Clone, Copy, PartialEq, Eq, Structural)]
pub enum Command {
    SelectPrevious,
    SelectNext,
    SelectFirst,
    SelectLast,
    Sort(VolumeSortField),
    Delete,
    ToggleDangling,
    Describe,
}

/// The page's key bindings.
pub open spec fn command_of(key: Key) -> Option<Command> {
    match key {
        Key::Up => Some(Command::SelectPrevious),
        Key::Char('k') => Some(Command::SelectPrevious),
        Key::Down => Some(Command::SelectNext),
        Key::Char('j') => Some(Command::SelectNext),
        Key::Char('g') => Some(Command::SelectFirst),
        Key::Char('G') => Some(Command::SelectLast),
        Key::Char('N') => Some(Command::Sort(VolumeSortField::Name)),
        Key::Char('D') => Some(Command::Sort(VolumeSortField::Driver)),
        Key::Char('M') => Some(Command::Sort(VolumeSortField::Mountpoint)),
        Key::Char('C') => Some(Command::Sort(VolumeSortField::Created)),
        Key::Ctrl('d') => Some(Command::Delete),
        Key::Alt('d') => Some(Command::ToggleDangling),
        Key::Char('d') => Some(Command::Describe),
        _ => None,
    }
}

pub fn command_for_key(key: Key) -> (r: Option<Command>)
    ensures
        r == command_of(key),
{
    match key {
        Key::Up | Key::Char('k') => Some(Command::SelectPrevious),
        Key::Down | Key::Char('j') => Some(Command::SelectNext),
        Key::Char('g') => Some(Command::SelectFirst),
        Key::Char('G') => Some(Command::SelectLast),
        Key::Char('N') => Some(Command::Sort(VolumeSortField::Name)),
        Key::Char('D') => Some(Command::Sort(VolumeSortField::Driver)),
        Key::Char('M') => Some(Command::Sort(VolumeSortField::Mountpoint)),
        Key::Char('C') => Some(Command::Sort(VolumeSortField::Created)),
        Key::Ctrl('d') => Some(Command::Delete),
        Key::Alt('d') => Some(Command::ToggleDangling),
        Key::Char('d') => Some(Command::Describe),
        _ => None,
    }
}

/// What the application is to do for the page once an event has been handled.
#[derive(Debug)]
pub enum Effect {
    Nothing,
    /// Run this deletion, then report whether it succeeded with `finish_action`.
    Run(DeleteVolume),
    /// Send this transition to the page stack.
    Send(Transition),
}

#[derive(Debug)]
pub struct Response {
    pub response: MessageResponse,
    pub effect: Effect,
}

#[derive(Debug, Clone, Copy, PartialEq, Eq, Structural)]
pub enum PageError {
    /// The command needs a selected volume and there is none.
    NoVolumeSelected,
    /// An action outcome arrived while no dialog was open.
    ModalMissing,
    /// The guarded action failed and is not escalated.
    ActionFailed,
}

pub open spec fn consumed(effect: Effect) -> Response {
    Response { response: MessageResponse::Consumed, effect }
}

pub open spec fn not_consumed() -> Response {
    Response { response: MessageResponse::NotConsumed, effect: Effect::Nothing }
}

/// The text of the dialog that asks whether to delete the volume named `name`.
pub open spec fn deletion_prompt(name: Seq<char>) -> Seq<char> {
    DELETE_PROMPT_START@ + name + DELETE_PROMPT_END@
}

/// `m` is an open dialog of kind `kind`, showing `message`, that deletes `name`.
pub open spec fn is_delete_modal(
    m: BooleanModal,
    kind: ModalKind,
    message: Seq<char>,
    name: Seq<char>,
    force: bool,
) -> bool {
    &&& m.title@ == DELETE_TITLE@
    &&& m.discriminator == kind
    &&& m.state matches ModalState::Open(text) && text@ == message
    &&& m.action matches Some(a) && a.name@ == name && a.force == force
}

/// The dialog that follows a failed plain deletion of `name`: a forced deletion.
pub open spec fn is_escalated_modal(m: BooleanModal, name: Seq<char>) -> bool {
    is_delete_modal(m, ModalKind::ForceDeleteVolume, ESCALATION_PROMPT@, name, true)
}

/// The page listing storage volumes.
#[derive(Debug)]
pub struct Volume {
    pub name: String,
    pub volumes: Vec<VolumeRecord>,
    pub selected: Option<usize>,
    pub modal: Option<BooleanModal>,
    pub sort_state: SortState,
    pub show_dangling: bool,
}

/// How the page's dialog and the reported result follow from the end of the guarded
/// action: success closes the dialog; a failed plain deletion opens the forced one in its
/// place; any other failure closes it and is reported.
pub open spec fn action_finished(
    before: Option<BooleanModal>,
    succeeded: bool,
    after: Option<BooleanModal>,
    r: Result<(), PageError>,
) -> bool {
    match before {
        None => after == before && r == Err::<(), PageError>(PageError::ModalMissing),
        Some(m) => match outcome_of(m.discriminator, succeeded) {
            ActionOutcome::Success => after is None && r is Ok,
            ActionOutcome::Failure => after is None && r == Err::<(), PageError>(
                PageError::ActionFailed,
            ),
            ActionOutcome::FailureEscalatable => match m.action {
                Some(a) => r is Ok && (after matches Some(m2) && is_escalated_modal(m2, a.name@)),
                None => after is None && r == Err::<(), PageError>(PageError::ActionFailed),
            },
        },
    }
}

/// The first index from `i` on whose volume is named `name`.
pub open spec fn find_from(list: Seq<VolumeRecord>, name: Seq<char>, i: int) -> Option<int>
    decreases list.len() - i,
{
    if i < 0 || i >= list.len() {
        None
    } else if list[i].name@ == name {
        Some(i)
    } else {
        find_from(list, name, i + 1)
    }
}

/// The selection a page starts with: the volume the context names, found by name, or else
/// the first entry.
pub open spec fn context_selection(list: Seq<VolumeRecord>, cx: AppContext) -> Option<usize> {
    let first = if list.len() > 0 { Some(0usize) } else { None };
    match cx.docker_volume {
        Some(v) => match find_from(list, v.name@, 0) {
            Some(j) => Some(j as usize),
            None => first,
        },
        None => first,
    }
}

pub open spec fn has_selection(p: Volume) -> bool {
    p.selected matches Some(i) && i < p.volumes@.len()
}

pub open spec fn selected_volume(p: Volume) -> VolumeRecord {
    p.volumes@[p.selected->Some_0 as int]
}

/// The list, its order and the page's name are the same in `a` and `b`.
pub open spec fn keeps_list(a: Volume, b: Volume) -> bool {
    &&& a.name == b.name
    &&& a.volumes@ == b.volumes@
    &&& a.sort_state == b.sort_state
}

/// `f` and `r` follow from offering `key` to the open dialog of `o`.
pub open spec fn modal_step(o: Volume, key: Key, f: Volume, r: Result<Response, PageError>) -> bool {
    let m = o.modal->Some_0;
    &&& keeps_list(o, f)
    &&& f.selected == o.selected
    &&& f.show_dangling == o.show_dangling
    &&& if is_confirm_key(key) {
        match m.action {
            Some(a) => r == Ok::<Response, PageError>(consumed(Effect::Run(a))) && f.modal == o.modal,
            None => r == Ok::<Response, PageError>(consumed(Effect::Nothing)) && f.modal is None,
        }
    } else if is_cancel_key(key) {
        r == Ok::<Response, PageError>(consumed(Effect::Nothing)) && f.modal is None
    } else {
        r == Ok::<Response, PageError>(consumed(Effect::Nothing)) && f.modal == o.modal
    }
}

/// `f` and `r` follow from running command `c` on `o`, which has no open dialog.
pub open spec fn command_step(o: Volume, c: Command, f: Volume, r: Result<Response, PageError>) -> bool {
    let len = o.volumes@.len();
    let done = Ok::<Response, PageError>(consumed(Effect::Nothing));
    match c {
        Command::SelectPrevious => r == done && keeps_list(o, f) && f.modal == o.modal
            && f.show_dangling == o.show_dangling && f.selected == prev_selection(o.selected, len),
        Command::SelectNext => r == done && keeps_list(o, f) && f.modal == o.modal
            && f.show_dangling == o.show_dangling && f.selected == next_selection(o.selected, len),
        Command::SelectFirst => r == done && keeps_list(o, f) && f.modal == o.modal
            && f.show_dangling == o.show_dangling && f.selected == top_selection(o.selected, len),
        Command::SelectLast => r == done && keeps_list(o, f) && f.modal == o.modal
            && f.show_dangling == o.show_dangling && f.selected == bottom_selection(o.selected, len),
        Command::Sort(field) => r == done && f.name == o.name && f.modal == o.modal
            && f.show_dangling == o.show_dangling && f.selected == o.selected
            && f.sort_state == toggled(o.sort_state, field)
            && is_stable_sort_of(f.volumes@, o.volumes@, f.sort_state),
        Command::Delete => keeps_list(o, f) && f.show_dangling == o.show_dangling
            && f.selected == o.selected && if has_selection(o) {
            let name = selected_volume(o).name@;
            &&& r == done
            &&& f.modal matches Some(m) && is_delete_modal(
                m,
                ModalKind::DeleteVolume,
                deletion_prompt(name),
                name,
                false,
            )
        } else {
            r == Ok::<Response, PageError>(not_consumed()) && f.modal == o.modal
        },
        Command::ToggleDangling => r == done && keeps_list(o, f) && f.modal == o.modal
            && f.selected == o.selected && f.show_dangling == !o.show_dangling,
        Command::Describe => keeps_list(o, f) && f.modal == o.modal && f.selected == o.selected
            && f.show_dangling == o.show_dangling && if has_selection(o) {
            r == Ok::<Response, PageError>(
                consumed(
                    Effect::Send(
                        Transition::ToDescribeContainerPage(drill_down_context(selected_volume(o))),
                    ),
                ),
            )
        } else {
            r == Err::<Response, PageError>(PageError::NoVolumeSelected)
        },
    }
}

fn deletion_prompt_for(name: &String) -> (r: String)
    ensures
        r@ == deletion_prompt(name@),
{
    let mut text = String::from_str(DELETE_PROMPT_START);
    text.append(name.as_str());
    text.append(DELETE_PROMPT_END);
    text
}

fn delete_modal(name: String, force: bool, message: String, kind: ModalKind) -> (r: BooleanModal)
    ensures
        is_delete_modal(r, kind, message@, name@, force),
{
    let mut m = BooleanModal::new(String::from_str(DELETE_TITLE), kind);
    m.initialise(message, Some(DeleteVolume::new(name, force)));
    m
}

impl Volume {
    /// The page's invariant: the selection names an entry, and a dialog that is kept is open.
    pub open spec fn wf(&self) -> bool {
        &&& selection_valid(self.selected, self.volumes@.len())
        &&& self.modal matches Some(m) ==> m.state is Open
    }

    /// An empty page, sorted by name ascending, showing dangling volumes.
    pub fn new() -> (r: Self)
        ensures
            r.wf(),
            r.name@ == NAME@,
            r.volumes@.len() == 0,
            r.selected is None,
            r.modal is None,
            r.sort_state == (SortState { field: VolumeSortField::Name, order: crate::sorting::SortOrder::Ascending }),
            r.show_dangling,
    {
        Volume {
            name: String::from_str(NAME),
            volumes: Vec::new(),
            selected: None,
            modal: None,
            sort_state: SortState::new(),
            show_dangling: true,
        }
    }

    /// Sorts the list under the current sort state.
    pub fn sort_volumes(&mut self)
        requires
            old(self).wf(),
        ensures
            final(self).wf(),
            is_stable_sort_of(final(self).volumes@, old(self).volumes@, old(self).sort_state),
            final(self).volumes@.len() == old(self).volumes@.len(),
            final(self).name == old(self).name,
            final(self).selected == old(self).selected,
            final(self).modal == old(self).modal,
            final(self).sort_state == old(self).sort_state,
            final(self).show_dangling == old(self).show_dangling,
    {
        let state = self.sort_state;
        sort_volumes(&mut self.volumes, &state);
    }

    /// Replaces the list with a freshly fetched one, sorted under the current sort state,
    /// and brings the selection back into it.
    pub fn refresh(&mut self, fetched: Vec<VolumeRecord>)
        requires
            old(self).wf(),
        ensures
            final(self).wf(),
            is_stable_sort_of(final(self).volumes@, fetched@, final(self).sort_state),
            final(self).volumes@.len() == fetched@.len(),
            final(self).selected == clamped_selection(old(self).selected, fetched@.len()),
            final(self).name == old(self).name,
            final(self).modal == old(self).modal,
            final(self).sort_state == old(self).sort_state,
            final(self).show_dangling == old(self).show_dangling,
    {
        self.volumes = fetched;
        self.selected = clamp_selection(self.selected, self.volumes.len());
        self.sort_volumes();
    }

    pub fn increment_list(&mut self)
        requires
            old(self).wf(),
        ensures
            final(self).wf(),
            keeps_list(*old(self), *final(self)),
            final(self).modal == old(self).modal,
            final(self).show_dangling == old(self).show_dangling,
            final(self).selected == next_selection(old(self).selected, old(self).volumes@.len()),
    {
        self.selected = increment_selection(self.selected, self.volumes.len());
    }

    pub fn decrement_list(&mut self)
        requires
            old(self).wf(),
        ensures
            final(self).wf(),
            keeps_list(*old(self), *final(self)),
            final(self).modal == old(self).modal,
            final(self).show_dangling == old(self).show_dangling,
            final(self).selected == prev_selection(old(self).selected, old(self).volumes@.len()),
    {
        self.selected = decrement_selection(self.selected, self.volumes.len());
    }

    /// The selected volume.
    pub fn get_volume(&self) -> (r: Result<&VolumeRecord, PageError>)
        ensures
            has_selection(*self) ==> (r matches Ok(v) && *v == selected_volume(*self)),
            !has_selection(*self) ==> r == Err::<&VolumeRecord, PageError>(PageError::NoVolumeSelected),
    {
        if let Some(idx) = self.selected {
            if idx < self.volumes.len() {
                return Ok(&self.volumes[idx]);
            }
        }
        Err(PageError::NoVolumeSelected)
    }

    /// The context handed to a drill-down from the selected volume.
    pub fn get_context(&self) -> (r: Result<AppContext, PageError>)
        ensures
            has_selection(*self) ==> r == Ok::<AppContext, PageError>(drill_down_context(selected_volume(*self))),
            !has_selection(*self) ==> r == Err::<AppContext, PageError>(PageError::NoVolumeSelected),
    {
        let volume = self.get_volume()?;
        Ok(make_drill_down_context(volume))
    }

    /// Opens a dialog to delete the selected volume, with the default prompt and kind unless
    /// others are given.
    pub fn delete_volume(
        &mut self,
        force: bool,
        message_override: Option<String>,
        type_override: Option<ModalKind>,
    ) -> (r: Result<(), PageError>)
        requires
            old(self).wf(),
        ensures
            final(self).wf(),
            keeps_list(*old(self), *final(self)),
            final(self).selected == old(self).selected,
            final(self).show_dangling == old(self).show_dangling,
            has_selection(*old(self)) ==> {
                let name = selected_volume(*old(self)).name@;
                let kind = match type_override {
                    Some(t) => t,
                    None => ModalKind::DeleteVolume,
                };
                let message = match message_override {
                    Some(m) => m@,
                    None => deletion_prompt(name),
                };
                &&& r is Ok
                &&& final(self).modal matches Some(m) && is_delete_modal(m, kind, message, name, force)
            },
            !has_selection(*old(self)) ==> r == Err::<(), PageError>(PageError::NoVolumeSelected)
                && final(self).modal == old(self).modal,
    {
        let name = match self.get_volume() {
            Ok(volume) => volume.name.clone(),
            Err(e) => return Err(e),
        };
        let kind = match type_override {
            Some(t) => t,
            None => ModalKind::DeleteVolume,
        };
        let message = match message_override {
            Some(m) => m,
            None => deletion_prompt_for(&name),
        };
        self.modal = Some(delete_modal(name, force, message, kind));
        Ok(())
    }

    /// Takes the outcome of the action that the open dialog guarded.
    pub fn finish_action(&mut self, succeeded: bool) -> (r: Result<(), PageError>)
        requires
            old(self).wf(),
        ensures
            final(self).wf(),
            keeps_list(*old(self), *final(self)),
            final(self).selected == old(self).selected,
            final(self).show_dangling == old(self).show_dangling,
            action_finished(old(self).modal, succeeded, final(self).modal, r),
    {
        let (outcome, name) = match &self.modal {
            None => return Err(PageError::ModalMissing),
            Some(m) => (
                m.outcome(succeeded),
                match &m.action {
                    Some(a) => Some(a.name.clone()),
                    None => None,
                },
            ),
        };
        match outcome {
            ActionOutcome::Success => {
                self.modal = None;
                Ok(())
            },
            ActionOutcome::Failure => {
                self.modal = None;
                Err(PageError::ActionFailed)
            },
            ActionOutcome::FailureEscalatable => match name {
                Some(n) => {
                    let message = String::from_str(ESCALATION_PROMPT);
                    self.modal = Some(delete_modal(n, true, message, ModalKind::ForceDeleteVolume));
                    Ok(())
                },
                None => {
                    self.modal = None;
                    Err(PageError::ActionFailed)
                },
            },
        }
    }

    /// Offers `key` to the open dialog, if any; otherwise runs the command it is bound to.
    pub fn update(&mut self, key: Key) -> (r: Result<Response, PageError>)
        requires
            old(self).wf(),
        ensures
            final(self).wf(),
            old(self).modal is Some ==> modal_step(*old(self), key, *final(self), r),
            old(self).modal is None ==> match command_of(key) {
                Some(c) => command_step(*old(self), c, *final(self), r),
                None => r == Ok::<Response, PageError>(not_consumed()) && keeps_list(
                    *old(self),
                    *final(self),
                ) && final(self).modal == old(self).modal && final(self).selected == old(
                    self,
                ).selected && final(self).show_dangling == old(self).show_dangling,
            },
    {
        if self.modal.is_some() {
            return Ok(self.update_modal(key));
        }
        let command = match command_for_key(key) {
            Some(c) => c,
            None => return Ok(Response { response: MessageResponse::NotConsumed, effect: Effect::Nothing }),
        };
        let done = Response { response: MessageResponse::Consumed, effect: Effect::Nothing };
        match command {
            Command::SelectPrevious => {
                self.decrement_list();
                Ok(done)
            },
            Command::SelectNext => {
                self.increment_list();
                Ok(done)
            },
            Command::SelectFirst => {
                self.selected = first_selection(self.selected, self.volumes.len());
                Ok(done)
            },
            Command::SelectLast => {
                self.selected = last_selection(self.selected, self.volumes.len());
                Ok(done)
            },
            Command::Sort(field) => {
                self.sort_state.toggle_or_set(field);
                self.sort_volumes();
                Ok(done)
            },
            Command::Delete => match self.delete_volume(false, None, None) {
                Ok(()) => Ok(done),
                Err(_) => Ok(Response { response: MessageResponse::NotConsumed, effect: Effect::Nothing }),
            },
            Command::ToggleDangling => {
                self.show_dangling = !self.show_dangling;
                Ok(done)
            },
            Command::Describe => {
                let cx = self.get_context()?;
                Ok(
                    Response {
                        response: MessageResponse::Consumed,
                        effect: Effect::Send(Transition::ToDescribeContainerPage(cx)),
                    },
                )
            },
        }
    }

    /// Offers `key` to the open dialog: it takes every key; a confirmation hands out the
    /// action to run, and a dialog that closed is dropped.
    fn update_modal(&mut self, key: Key) -> (r: Response)
        requires
            old(self).wf(),
            old(self).modal is Some,
        ensures
            final(self).wf(),
            modal_step(*old(self), key, *final(self), Ok::<Response, PageError>(r)),
    {
        let mut m = self.modal.take().unwrap();
        let event = m.update(key);
        match event {
            ModalEvent::Confirmed => match &m.action {
                Some(a) => {
                    let action = a.duplicate();
                    self.modal = Some(m);
                    Response { response: MessageResponse::Consumed, effect: Effect::Run(action) }
                },
                None => Response { response: MessageResponse::Consumed, effect: Effect::Nothing },
            },
            ModalEvent::Cancelled => Response {
                response: MessageResponse::Consumed,
                effect: Effect::Nothing,
            },
            ModalEvent::Ignored => {
                self.modal = Some(m);
                Response { response: MessageResponse::Consumed, effect: Effect::Nothing }
            },
        }
    }

    /// Starts the page on a freshly fetched list: sorted, with the volume that the context
    /// names selected, or else the first entry.
    pub fn initialise(&mut self, cx: AppContext, fetched: Vec<VolumeRecord>)
        requires
            old(self).wf(),
        ensures
            final(self).wf(),
            is_stable_sort_of(final(self).volumes@, fetched@, final(self).sort_state),
            final(self).volumes@.len() == fetched@.len(),
            final(self).selected == context_selection(final(self).volumes@, cx),
            final(self).name == old(self).name,
            final(self).modal == old(self).modal,
            final(self).sort_state == old(self).sort_state,
            final(self).show_dangling == old(self).show_dangling,
    {
        self.selected = None;
        self.refresh(fetched);
        self.selected = first_selection(None, self.volumes.len());
        let ghost sorted = *self;
        if let Some(v) = &cx.docker_volume {
            let mut i: usize = 0;
            while i < self.volumes.len()
                invariant
                    self.wf(),
                    keeps_list(sorted, *self),
                    is_stable_sort_of(sorted.volumes@, fetched@, sorted.sort_state),
                    sorted.volumes@.len() == fetched@.len(),
                    sorted.name == old(self).name,
                    sorted.modal == old(self).modal,
                    sorted.sort_state == old(self).sort_state,
                    sorted.show_dangling == old(self).show_dangling,
                    cx.docker_volume == Some(*v),
                    self.modal == sorted.modal,
                    self.show_dangling == sorted.show_dangling,
                    i <= self.volumes@.len(),
                    find_from(self.volumes@, v.name@, 0) == find_from(self.volumes@, v.name@, i as int),
                    self.selected == (if self.volumes@.len() > 0 { Some(0usize) } else { None }),
                decreases self.volumes@.len() - i,
            {
                if self.volumes[i].name == v.name {
                    self.selected = Some(i);
                    return;
                }
                i = i + 1;
            }
        }
    }
}

/// A failed plain deletion is answered by exactly one new dialog, the forced deletion of the
/// same volume; the failure of that forced deletion is reported and not escalated again.
pub proof fn lemma_escalation_once(
    m: BooleanModal,
    after: Option<BooleanModal>,
    r: Result<(), PageError>,
    after_second: Option<BooleanModal>,
    r_second: Result<(), PageError>,
)
    requires
        m.discriminator == ModalKind::DeleteVolume,
        m.action is Some,
        action_finished(Some(m), false, after, r),
        action_finished(after, false, after_second, r_second),
    ensures
        r is Ok,
        after matches Some(m2) && is_escalated_modal(m2, m.action->Some_0.name@),
        r_second == Err::<(), PageError>(PageError::ActionFailed),
        after_second is None,
{
}

proof fn lemma_find_from_finds(list: Seq<VolumeRecord>, name: Seq<char>, i: int, t: int)
    requires
        0 <= i <= t < list.len(),
        list[t].name@ == name,
    ensures
        find_from(list, name, i) matches Some(j) && i <= j <= t && list[j].name@ == name,
    decreases t - i,
{
    if list[i].name@ != name {
        lemma_find_from_finds(list, name, i + 1, t);
    }
}

/// Drilling down from the selected volume and coming back through the continuation that the
/// context carries selects a volume of the same name, in any list that still holds one.
pub proof fn lemma_drill_down_round_trip(page: Volume, list: Seq<VolumeRecord>, t: int)
    requires
        page.wf(),
        has_selection(page),
        0 <= t < list.len() <= usize::MAX,
        list[t].name@ == selected_volume(page).name@,
    ensures
        drill_down_context(selected_volume(page)).continuation is Some,
        *drill_down_context(selected_volume(page)).continuation->Some_0 is ToVolumePage,
        ({
            let back = *drill_down_context(selected_volume(page)).continuation->Some_0;
            let j = context_selection(list, back->ToVolumePage_0);
            j is Some && j->Some_0 < list.len() && list[j->Some_0 as int].name@ == selected_volume(
                page,
            ).name@
        }),
{
    lemma_find_from_finds(list, selected_volume(page).name@, 0, t);
}

} // verus!
