//! What the window holds, and how messages of the user interface change it.

use std::time::Instant;
use vstd::prelude::*;
use vstd::string::StringExecFns;
use crate::options::Options;
use crate::response::{Response, WorkerError};
use crate::signal::Signal;
use crate::util::Either;
use crate::worker::{Worker, WorkerView};

verus! {

#[verifier::external_type_specification]
#[verifier::external_body]
pub struct ExInstant(std::time::Instant);

/// A message of the user interface.
#[derive(Debug)]
pub enum Message {
    /// Sets the `dark` option.
    SetDark(bool),
    /// Sets the `colored` option.
    SetColored(bool),
    /// Opens a file dialog.
    SelectFile,
    /// Processes the response queue.
    Update(Instant),
}

impl Clone for Message {
    fn clone(&self) -> (same: Self)
        ensures
            same == *self,
    {
        match self {
            Message::SetDark(dark) => Message::SetDark(*dark),
            Message::SetColored(colored) => Message::SetColored(*colored),
            Message::SelectFile => Message::SelectFile,
            Message::Update(now) => Message::Update(*now),
        }
    }
}

/// The text that is shown for an error.
pub open spec fn error_text(error: WorkerError) -> Seq<char> {
    "Ein Fehler ist aufgetreten: "@ + error.label()
}

/// Returns the text that is shown for an error.
pub fn error_message(error: WorkerError) -> (text: String)
    ensures
        text@ == error_text(error),
{
    let name = error.name();
    String::from_str("Ein Fehler ist aufgetreten: ").concat(name.as_str())
}

/// The mathematical content of a [`TitrationCurve`].
pub struct TitrationCurveView<C> {
    /// The display options.
    pub options: Options,
    /// The text that stands in the window while no file is loaded.
    pub placeholder: Seq<char>,
    /// What the window shows: a curve, or a text.
    pub content: Either<C, Seq<char>>,
}

impl<C> TitrationCurveView<C> {
    /// What the window shows for `response`.
    pub open spec fn shown(self, response: Response<C>) -> Either<C, Seq<char>> {
        match response {
            Response::Unload => Either::Right(self.placeholder),
            Response::Output(curve) => Either::Left(curve),
            Response::Error(error) => Either::Right(error_text(error)),
        }
    }

    /// The window after it caught up with `responses`: it shows what the
    /// last of them says, and stays as it is if there is none.
    pub open spec fn caught_up(self, responses: Seq<Response<C>>) -> Self {
        if responses.len() == 0 {
            self
        } else {
            TitrationCurveView { content: self.shown(responses.last()), ..self }
        }
    }
}

/// The state of the window. `C` is the type of a curve.
pub struct TitrationCurve<C> {
    options: Options,
    placeholder: String,
    /// The content of the window.
    ///
    /// Either the curve to draw or a message.
    content: Either<C, String>,
}

impl<C> View for TitrationCurve<C> {
    type V = TitrationCurveView<C>;

    closed spec fn view(&self) -> TitrationCurveView<C> {
        TitrationCurveView {
            options: self.options,
            placeholder: self.placeholder@,
            content: match self.content {
                Either::Left(curve) => Either::Left(curve),
                Either::Right(text) => Either::Right(text@),
            },
        }
    }
}

impl<C> TitrationCurve<C> {
    /// Creates a window that shows `placeholder` while no file is loaded.
    pub fn new(placeholder: String) -> (window: Self)
        ensures
            !window@.options.dark(),
            !window@.options.colored(),
            window@.placeholder == placeholder@,
            window@.content == Either::<C, Seq<char>>::Right(placeholder@),
    {
        let content = Either::Right(placeholder.clone());
        TitrationCurve { options: Options::default(), placeholder, content }
    }

    /// Returns the display options.
    pub fn options(&self) -> (options: &Options)
        ensures
            *options == self@.options,
    {
        &self.options
    }

    /// Returns what the window shows: the curve to draw, or a message.
    pub fn content(&self) -> (content: &Either<C, String>)
        ensures
            match *content {
                Either::Left(curve) => self@.content == Either::<C, Seq<char>>::Left(curve),
                Either::Right(text) => self@.content == Either::<C, Seq<char>>::Right(text@),
            },
    {
        &self.content
    }

    /// Shows what `response` says.
    pub fn show(&mut self, response: Response<C>)
        ensures
            final(self)@ == (TitrationCurveView {
                content: old(self)@.shown(response),
                ..old(self)@
            }),
    {
        self.content = match response {
            Response::Unload => Either::Right(self.placeholder.clone()),
            Response::Output(curve) => Either::Left(curve),
            Response::Error(error) => Either::Right(error_message(error)),
        };
    }

    /// Handles a message of the user interface. An option is set in the
    /// window; the request for a file goes to the worker as a signal; and on
    /// an update the window takes all responses that wait and shows what the
    /// last of them says.
    pub fn update(&mut self, hub: &mut Worker<C>, message: Message)
        ensures
            match message {
                Message::SetDark(dark) => {
                    &&& final(self)@.options.dark() == dark
                    &&& final(self)@.options.colored() == old(self)@.options.colored()
                    &&& final(self)@.placeholder == old(self)@.placeholder
                    &&& final(self)@.content == old(self)@.content
                    &&& final(hub)@ == old(hub)@
                },
                Message::SetColored(colored) => {
                    &&& final(self)@.options.colored() == colored
                    &&& final(self)@.options.dark() == old(self)@.options.dark()
                    &&& final(self)@.placeholder == old(self)@.placeholder
                    &&& final(self)@.content == old(self)@.content
                    &&& final(hub)@ == old(hub)@
                },
                Message::SelectFile => {
                    &&& final(self)@ == old(self)@
                    &&& final(hub)@ == old(hub)@.send(Signal::FileDialog)
                },
                Message::Update(_) => {
                    &&& final(self)@ == old(self)@.caught_up(old(hub)@.responses)
                    &&& final(hub)@ == (WorkerView { responses: Seq::empty(), ..old(hub)@ })
                },
            },
    {
        match message {
            Message::SetDark(dark) => {
                self.options.set_dark(dark);
            },
            Message::SetColored(colored) => {
                self.options.set_colored(colored);
            },
            Message::SelectFile => {
                hub.send_signal(Signal::FileDialog);
            },
            Message::Update(_) => {
                let ghost all = hub@.responses;
                let ghost before = self@;
                let ghost start = hub@;
                let mut taken: Ghost<int> = Ghost(0);
                proof {
                    assert(all.skip(0) =~= all);
                }
                loop
                    invariant
                        0 <= taken@ <= all.len(),
                        hub@ == (WorkerView { responses: all.skip(taken@), ..start }),
                        self@ == before.caught_up(all.take(taken@)),
                    ensures
                        self@ == before.caught_up(all),
                        hub@ == (WorkerView { responses: Seq::empty(), ..start }),
                    decreases all.len() - taken@,
                {
                    match hub.next_response() {
                        Some(response) => {
                            self.show(response);
                            proof {
                                assert(all.skip(taken@).drop_first() =~= all.skip(taken@ + 1));
                                assert(all.take(taken@ + 1).last() == all[taken@]);
                                taken@ = taken@ + 1;
                            }
                        },
                        None => {
                            proof {
                                assert(all.take(taken@) =~= all);
                                assert(all.skip(taken@) =~= Seq::<Response<C>>::empty());
                            }
                            break ;
                        },
                    }
                }
            },
        }
    }
}

} // verus!
