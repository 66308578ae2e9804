use vstd::prelude::*;

use crate::action::Action;
use crate::terminal::App;
use crate::terminal::Key;
use crate::terminal::Mode;
use crate::terminal::is_bound;
use crate::debug::after_print;
use crate::terminal::action_step;

verus! {

/// The state of a yes/no confirmation dialog.
pub struct Data {
    message: String,
    title: String,
    highlight_pos: bool,
    pos_result_func: Option<Action>,
    neg_result_func: Option<Action>,
}

impl Data {
    pub closed spec fn message_view(&self) -> Seq<char> {
        self.message@
    }

    pub closed spec fn title_view(&self) -> Seq<char> {
        self.title@
    }

    /// Whether the positive answer is highlighted.
    pub closed spec fn positive(&self) -> bool {
        self.highlight_pos
    }

    /// The action for a positive answer.
    pub closed spec fn on_positive(&self) -> Option<Action> {
        self.pos_result_func
    }

    /// The action for a negative answer.
    pub closed spec fn on_negative(&self) -> Option<Action> {
        self.neg_result_func
    }

    /// An empty dialog with the positive answer highlighted and no actions.
    pub fn new() -> (r: Data)
        ensures
            r.message_view().len() == 0,
            r.title_view().len() == 0,
            r.positive(),
            r.on_positive() is None,
            r.on_negative() is None,
    {
        Data {
            message: String::new(),
            title: String::new(),
            highlight_pos: true,
            pos_result_func: None,
            neg_result_func: None,
        }
    }

    /// Opens the dialog with the positive answer highlighted.
    pub fn reset(&mut self, message: String, title: String, pos_result_func: Action, neg_result_func: Action)
        ensures
            final(self).message_view() == message@,
            final(self).title_view() == title@,
            final(self).positive(),
            final(self).on_positive() == Some(pos_result_func),
            final(self).on_negative() == Some(neg_result_func),
    {
        self.message = message;
        self.title = title;
        self.highlight_pos = true;
        self.pos_result_func = Some(pos_result_func);
        self.neg_result_func = Some(neg_result_func);
    }

    /// Sets the highlight: `true` for the positive answer.
    pub fn set_highlight(&mut self, positive: bool)
        ensures
            final(self).positive() == positive,
            final(self).message_view() == old(self).message_view(),
            final(self).title_view() == old(self).title_view(),
            final(self).on_positive() == old(self).on_positive(),
            final(self).on_negative() == old(self).on_negative(),
    {
        self.highlight_pos = positive;
    }

    /// Moves the highlight to the other answer.
    pub fn toggle_highlight(&mut self)
        ensures
            final(self).positive() == !old(self).positive(),
            final(self).message_view() == old(self).message_view(),
            final(self).title_view() == old(self).title_view(),
            final(self).on_positive() == old(self).on_positive(),
            final(self).on_negative() == old(self).on_negative(),
    {
        self.highlight_pos = !self.highlight_pos;
    }

    /// The action of the highlighted answer.
    pub fn highlighted_action(&self) -> (r: Option<Action>)
        ensures
            r == (if self.positive() { self.on_positive() } else { self.on_negative() }),
    {
        if self.highlight_pos {
            self.pos_action()
        } else {
            self.neg_action()
        }
    }

    /// The action of the positive answer.
    pub fn pos_action(&self) -> (r: Option<Action>)
        ensures
            r == self.on_positive(),
    {
        self.pos_result_func
    }

    /// The action of the negative answer.
    pub fn neg_action(&self) -> (r: Option<Action>)
        ensures
            r == self.on_negative(),
    {
        self.neg_result_func
    }

    pub fn highlight_pos(&self) -> (r: bool)
        ensures
            r == self.positive(),
    {
        self.highlight_pos
    }

    pub fn message(&self) -> (r: &String)
        ensures
            r@ == self.message_view(),
    {
        &self.message
    }

    pub fn title(&self) -> (r: &String)
        ensures
            r@ == self.title_view(),
    {
        &self.title
    }
}

/// The answer's action, when there is one, has run; otherwise only the
/// message `missing` was logged.
pub open spec fn resolved(o: App, n: App, action: Option<Action>, missing: Seq<char>) -> bool {
    match action {
        Some(a) => action_step(o, n, a),
        None => {
            &&& n == (App { debugger: n.debugger, ..o })
            &&& n.debugger.texts() == after_print(o.debugger.texts(), missing)
        },
    }
}

/// Runs the positive answer's action.
pub fn pos_response(app: &mut App)
    requires
        old(app).wf(),
    ensures
        final(app).wf(),
        resolved(*old(app), *final(app), old(app).confirmation_data.on_positive(), "No pos result func set."@),
{
    match app.confirmation_data.pos_action() {
        Some(a) => app.run_action(a),
        None => app.debugger.print("No pos result func set."),
    }
}

/// Runs the negative answer's action.
pub fn neg_response(app: &mut App)
    requires
        old(app).wf(),
    ensures
        final(app).wf(),
        resolved(*old(app), *final(app), old(app).confirmation_data.on_negative(), "No neg result func set."@),
{
    match app.confirmation_data.neg_action() {
        Some(a) => app.run_action(a),
        None => app.debugger.print("No neg result func set."),
    }
}

/// Runs the highlighted answer's action.
pub fn response(app: &mut App)
    requires
        old(app).wf(),
    ensures
        final(app).wf(),
        old(app).confirmation_data.positive() ==> resolved(*old(app), *final(app),
            old(app).confirmation_data.on_positive(), "No pos result func set."@),
        !old(app).confirmation_data.positive() ==> resolved(*old(app), *final(app),
            old(app).confirmation_data.on_negative(), "No neg result func set."@),
{
    if app.confirmation_data.highlight_pos() {
        pos_response(app);
    } else {
        neg_response(app);
    }
}

/// What a key does in the confirmation dialog.
pub open spec fn confirmation_step(o: App, n: App, key: Key) -> bool {
    &&& (key == Key::Char('h') || key == Key::Left ==> {
        &&& !n.confirmation_data.positive()
        &&& n == (App { confirmation_data: n.confirmation_data, ..o })
    })
    &&& (key == Key::Char('l') || key == Key::Right ==> {
        &&& n.confirmation_data.positive()
        &&& n == (App { confirmation_data: n.confirmation_data, ..o })
    })
    &&& (key == Key::Tab ==> {
        &&& n.confirmation_data.positive() == !o.confirmation_data.positive()
        &&& n == (App { confirmation_data: n.confirmation_data, ..o })
    })
    &&& (key == Key::Enter || key == Key::Esc || key == Key::Char('q') ==> n.mode == Mode::Main)
    &&& (key == Key::Enter ==> if o.confirmation_data.positive() {
        resolved(o, n, o.confirmation_data.on_positive(), "No pos result func set."@)
    } else {
        resolved(o, n, o.confirmation_data.on_negative(), "No neg result func set."@)
    })
    &&& (key == Key::Esc || key == Key::Char('q') ==> resolved(o, n,
        o.confirmation_data.on_negative(), "No neg result func set."@))
    &&& (!is_bound(Mode::Confirmation, key) ==> n == o)
}

/// Handles a key in the confirmation dialog: the highlight moves with the
/// arrow keys, `h`, `l` and tab; enter runs the highlighted answer; escape
/// and `q` always run the negative one.
pub fn controller(app: &mut App, key: Key)
    requires
        old(app).wf(),
        old(app).mode == Mode::Confirmation,
    ensures
        final(app).wf(),
        confirmation_step(*old(app), *final(app), key),
{
    match key {
        Key::Char('h') | Key::Left => app.confirmation_data.set_highlight(false),
        Key::Char('l') | Key::Right => app.confirmation_data.set_highlight(true),
        Key::Tab => app.confirmation_data.toggle_highlight(),
        Key::Enter => response(app),
        Key::Esc | Key::Char('q') => neg_response(app),
        _ => {},
    }
}

} // verus!
