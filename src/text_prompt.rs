use vstd::prelude::*;

use crate::action::Action;
use crate::text::pop_char;
use crate::text::push_char;
use crate::terminal::App;
use crate::terminal::action_step;
use crate::terminal::Key;
use crate::terminal::Mode;

verus! {

/// The state of a one-line text prompt.
pub struct Data {
    input: String,
    output: String,
    title: String,
    message: String,
    result_func: Option<Action>,
}

impl Data {
    /// The text typed so far.
    pub closed spec fn input_view(&self) -> Seq<char> {
        self.input@
    }

    /// The text last confirmed with enter.
    pub closed spec fn output_view(&self) -> Seq<char> {
        self.output@
    }

    pub closed spec fn title_view(&self) -> Seq<char> {
        self.title@
    }

    pub closed spec fn message_view(&self) -> Seq<char> {
        self.message@
    }

    /// The action to run with the confirmed text.
    pub closed spec fn pending(&self) -> Option<Action> {
        self.result_func
    }

    /// An empty prompt with no pending action.
    pub fn new() -> (r: Data)
        ensures
            r.input_view().len() == 0,
            r.output_view().len() == 0,
            r.title_view().len() == 0,
            r.message_view().len() == 0,
            r.pending() is None,
    {
        Data {
            input: String::new(),
            output: String::new(),
            title: String::new(),
            message: String::new(),
            result_func: None,
        }
    }

    /// Adds a character to the typed text.
    pub fn push_input(&mut self, c: char)
        ensures
            final(self).input_view() == old(self).input_view().push(c),
            final(self).output_view() == old(self).output_view(),
            final(self).title_view() == old(self).title_view(),
            final(self).message_view() == old(self).message_view(),
            final(self).pending() == old(self).pending(),
    {
        push_char(&mut self.input, c);
    }

    /// Removes the last typed character, if any.
    pub fn pop_input(&mut self)
        ensures
            final(self).input_view() == (if old(self).input_view().len() == 0 {
                old(self).input_view()
            } else {
                old(self).input_view().drop_last()
            }),
            final(self).output_view() == old(self).output_view(),
            final(self).title_view() == old(self).title_view(),
            final(self).message_view() == old(self).message_view(),
            final(self).pending() == old(self).pending(),
    {
        let _ = pop_char(&mut self.input);
    }

    /// Opens the prompt: the typed text is emptied and `result_func` becomes
    /// the pending action.
    pub fn reset(&mut self, title: &str, message: &str, result_func: Action)
        ensures
            final(self).input_view().len() == 0,
            final(self).output_view() == old(self).output_view(),
            final(self).title_view() == title@,
            final(self).message_view() == message@,
            final(self).pending() == Some(result_func),
    {
        self.input = String::new();
        self.title = title.to_owned();
        self.message = message.to_owned();
        self.result_func = Some(result_func);
    }

    /// Confirms the typed text as the output.
    pub fn enter(&mut self)
        ensures
            final(self).output_view() == old(self).input_view(),
            final(self).input_view() == old(self).input_view(),
            final(self).title_view() == old(self).title_view(),
            final(self).message_view() == old(self).message_view(),
            final(self).pending() == old(self).pending(),
    {
        self.output = self.input.clone();
    }

    pub fn input(&self) -> (r: &String)
        ensures
            r@ == self.input_view(),
    {
        &self.input
    }

    pub fn output(&self) -> (r: &String)
        ensures
            r@ == self.output_view(),
    {
        &self.output
    }

    pub fn title(&self) -> (r: &String)
        ensures
            r@ == self.title_view(),
    {
        &self.title
    }

    pub fn message(&self) -> (r: &String)
        ensures
            r@ == self.message_view(),
    {
        &self.message
    }

    pub fn result_func(&self) -> (r: Option<Action>)
        ensures
            r == self.pending(),
    {
        self.result_func
    }
}

/// What a key does in the text prompt.
pub open spec fn prompt_step(o: App, n: App, key: Key) -> bool {
    &&& (key == Key::Esc ==> n == (App { mode: Mode::Main, ..o }))
    &&& (key matches Key::Char(c) ==> {
        &&& n.text_prompt_data.input_view() == o.text_prompt_data.input_view().push(c)
        &&& n == (App { text_prompt_data: n.text_prompt_data, ..o })
    })
    &&& (key == Key::Backspace ==> n == (App { text_prompt_data: n.text_prompt_data, ..o }))
    &&& (key == Key::Enter ==> ({
        let taken = App { text_prompt_data: n.text_prompt_data, ..o };
        &&& n.text_prompt_data.output_view() == o.text_prompt_data.input_view()
        &&& n.text_prompt_data.input_view() == o.text_prompt_data.input_view()
        &&& n.text_prompt_data.title_view() == o.text_prompt_data.title_view()
        &&& n.text_prompt_data.message_view() == o.text_prompt_data.message_view()
        &&& n.text_prompt_data.pending() == o.text_prompt_data.pending()
        &&& match o.text_prompt_data.pending() {
            Some(a) => action_step(taken, n, a),
            None => n == (App { mode: Mode::Main, ..taken }),
        }
    }))
    &&& (key == Key::Other || key == Key::Tab || key == Key::BackTab || key == Key::Left || key == Key::Right
        ==> n == o)
}

/// Handles a key in the text prompt.
pub fn controller(app: &mut App, key: Key)
    requires
        old(app).wf(),
        old(app).mode == Mode::TextPrompt,
    ensures
        final(app).wf(),
        prompt_step(*old(app), *final(app), key),
{
    match key {
        Key::Char(c) => app.text_prompt_data.push_input(c),
        Key::Backspace => app.text_prompt_data.pop_input(),
        Key::Enter => {
            app.text_prompt_data.enter();
            match app.text_prompt_data.result_func() {
                Some(a) => app.run_action(a),
                None => app.main_controller(),
            }
        },
        Key::Esc => app.main_controller(),
        _ => {},
    }
}

} // verus!
