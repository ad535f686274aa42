//! The editor as a whole: which command goes where, when to quit, when to ask for
//! a file name, what to write and what to paint. Reading keys, writing files and
//! painting are left to the caller, who is told what to do and tells how it went.

use vstd::prelude::*;
use vstd::string::StringExecFns;
use vstd::view::View as _;
use crate::buffer::{file_text, IoError};
use crate::command::{command_of, Command, EditCommand, InputEvent, KeyKind, SystemCommand};
use crate::commandbar::{plus_or_max, CommandBar};
use crate::line::{text_fits, text_of, FragmentView};
use crate::messagebar::MessageBar;
use crate::position::{minus_or_zero, Position};
use crate::size::Size;
use crate::statusbar::StatusBar;
use crate::text::byte_count;
use crate::uicomponent::{renders, takes_in, UiComponent};
use crate::boundary::texts_of;
use crate::view::{View, ViewState};

verus! {

/// How often in a row quitting has to be asked for before unsaved changes are
/// given up.
pub const QUIT_TIMES: u8 = 3;

/// What the editor asks of its caller.
#[derive(Debug)]
pub enum Request {
    /// Nothing.
    Nothing,
    /// To write `text` to the document's own file, which is `path`, and to tell
    /// `save` how it went, with no file name.
    Save { path: String, text: String },
    /// To write `text` to the file `file_name`, and to tell `save` how it went,
    /// with that file name.
    SaveAs { file_name: String, text: String },
}

/// A part of the screen.
#[derive(Clone, Copy, Debug, PartialEq, Eq, Structural)]
pub enum Part {
    /// The bar in the last row: the command bar while there is one, the message
    /// bar else.
    Bottom,
    /// The status bar.
    Status,
    /// The window on the document.
    Document,
}

/// What has to be painted, and where the cursor then belongs.
#[derive(Debug)]
pub struct Frame {
    /// The row of the screen for `bottom`.
    pub bottom_row: usize,
    /// The text of the bar in the last row, if it has to be painted.
    pub bottom: Option<Vec<String>>,
    /// The row of the screen for `status`.
    pub status_row: usize,
    /// The text of the status bar, if it has to be painted; it is shown inverted.
    pub status: Option<Vec<String>>,
    /// The rows of the window on the document, from row 0 of the screen, if they
    /// have to be painted.
    pub document: Option<Vec<String>>,
    /// Where the cursor belongs.
    pub caret: Position,
}

/// What an editor is.
pub struct EditorState {
    pub should_quit: bool,
    pub view: ViewState,
    pub status_bar: StatusBar,
    pub message_bar: MessageBar,
    pub command_bar: Option<CommandBar>,
    pub terminal_size: Size,
    pub title: Seq<char>,
    pub quit_times: u8,
    pub name: Seq<char>,
}

/// `after` is the message bar `bar` once it was told to show `text`.
pub open spec fn shows(bar: MessageBar, text: Seq<char>, after: MessageBar) -> bool {
    &&& after.text() == text
    &&& after.since() == bar.now()
    &&& after.now() == bar.now()
    &&& after.marked()
    &&& !after.cleared()
}

/// `after` is the status bar `bar` given the size `size` and marked as out of date.
pub open spec fn status_resized(bar: StatusBar, size: Size, after: StatusBar) -> bool {
    &&& after.size() == size
    &&& after.marked()
    &&& after.status() == bar.status()
}

/// `after` is the message bar `bar` marked as out of date.
pub open spec fn message_marked(bar: MessageBar, after: MessageBar) -> bool {
    &&& after.marked()
    &&& after.text() == bar.text()
    &&& after.since() == bar.since()
    &&& after.cleared() == bar.cleared()
    &&& after.now() == bar.now()
}

/// `after` is the command bar `bar` given the size `size` and marked as out of
/// date.
pub open spec fn command_resized(bar: CommandBar, size: Size, after: CommandBar) -> bool {
    &&& after.size() == size
    &&& after.marked()
    &&& after.prompt() == bar.prompt()
    &&& after.typed() == bar.typed()
    &&& after.wf()
}

/// The size of the window on the document in a terminal of the size `size`: all
/// rows but the two of the bars.
pub open spec fn document_size(size: Size) -> Size {
    Size { height: minus_or_zero(size.height as int, 2) as usize, width: size.width }
}

/// The size of a bar in a terminal of the size `size`: one row.
pub open spec fn bar_size(size: Size) -> Size {
    Size { height: 1, width: size.width }
}

impl EditorState {
    /// The editor can carry out `command`: there is room for what an edit adds,
    /// in the command bar while there is one, in the document else.
    pub open spec fn accepts(self, command: Command) -> bool {
        match command {
            Command::Edit(edit) => match self.command_bar {
                Some(bar) => edit is InsertNewline || bar.has_room(edit),
                None => self.view.has_room(edit),
            },
            _ => true,
        }
    }

    /// `after` is this editor in a terminal of the size `size`: every part has its
    /// new size and is marked as out of date.
    pub open spec fn resized(self, size: Size, after: EditorState) -> bool {
        &&& after.terminal_size == size
        &&& after.view == self.view.resized(document_size(size)).scrolled().redrawn()
        &&& message_marked(self.message_bar, after.message_bar)
        &&& status_resized(self.status_bar, bar_size(size), after.status_bar)
        &&& match self.command_bar {
            Some(bar) => after.command_bar is Some && command_resized(
                bar,
                bar_size(size),
                after.command_bar->0,
            ),
            None => after.command_bar is None,
        }
        &&& after.should_quit == self.should_quit
        &&& after.title == self.title
        &&& after.quit_times == self.quit_times
        &&& after.name == self.name
    }

    /// `after` is this editor once quitting was asked for: it quits if nothing is
    /// unsaved, or if this is the last of `QUIT_TIMES` times in a row; else it
    /// counts the time and warns.
    pub open spec fn quit_asked(self, after: EditorState) -> bool {
        if !self.view.buffer.dirty || self.quit_times + 1 == QUIT_TIMES {
            after == (EditorState { should_quit: true, ..self })
        } else {
            &&& after.quit_times == self.quit_times + 1
            &&& shows(
                self.message_bar,
                "WARNING! File has unsaved changes. Press Ctrl-Q "@ + crate::text::decimal(
                    (QUIT_TIMES - self.quit_times - 1) as nat,
                ) + " more times to quit."@,
                after.message_bar,
            )
            &&& after == (EditorState {
                quit_times: after.quit_times,
                message_bar: after.message_bar,
                ..self
            })
        }
    }

    /// `after` is this editor with the count of times that quitting was asked for
    /// back at zero, and with an empty message if it was not.
    pub open spec fn quit_forgotten(self, after: EditorState) -> bool {
        if self.quit_times > 0 {
            &&& shows(self.message_bar, Seq::<char>::empty(), after.message_bar)
            &&& after == (EditorState { quit_times: 0, message_bar: after.message_bar, ..self })
        } else {
            after == self
        }
    }

    /// `after` is this editor with a command bar that asks for a file name.
    pub open spec fn prompted(self, after: EditorState) -> bool {
        &&& after.command_bar matches Some(bar)
        &&& bar.wf()
        &&& bar.prompt() == "Save as: "@
        &&& bar.typed() == Seq::<FragmentView>::empty()
        &&& bar.size() == bar_size(self.terminal_size)
        &&& bar.marked()
        &&& after == (EditorState { command_bar: after.command_bar, ..self })
    }

    /// `after` is this editor without its command bar, the message bar marked as out
    /// of date.
    pub open spec fn dismissed(self, after: EditorState) -> bool {
        &&& message_marked(self.message_bar, after.message_bar)
        &&& after == (EditorState { command_bar: None, message_bar: after.message_bar, ..self })
    }

    /// `request` asks to write the document of this editor to its own file.
    pub open spec fn asks_to_save(self, request: Request) -> bool {
        &&& request matches Request::Save { path, text }
        &&& self.view.buffer.path == Some(path@)
        &&& text@ == file_text(self.view.buffer.rows)
    }

    /// `request` asks to write the document of this editor to the file
    /// `file_name`.
    pub open spec fn asks_to_save_as(self, file_name: Seq<char>, request: Request) -> bool {
        &&& request matches Request::SaveAs { file_name: name, text }
        &&& name@ == file_name
        &&& text@ == file_text(self.view.buffer.rows)
    }

    /// `after` is this editor once saving was asked for, and `request` what it
    /// asks of its caller: to write the document to its file, or, while the document
    /// has no file, nothing, a command bar asking for a file name instead.
    pub open spec fn save_asked(self, after: EditorState, request: Request) -> bool {
        if self.view.buffer.path is Some {
            after == self && self.asks_to_save(request)
        } else {
            self.prompted(after) && request is Nothing
        }
    }

    /// `after` is this editor once `command` was carried out, and `request` what
    /// it asks of its caller.
    ///
    /// Quitting and saving are asked for in vain while there is a command bar, and
    /// so is moving; dismissing is asked for in vain while there is none. Every
    /// command but quitting and a new size puts the count of times that quitting
    /// was asked for back at zero. While there is a command bar, edits go to it, but
    /// for the line break, which takes what was typed as the name of the file to
    /// write the document to.
    pub open spec fn processed(
        self,
        command: Command,
        after: EditorState,
        request: Request,
    ) -> bool {
        match command {
            Command::System(SystemCommand::Quit) => request is Nothing && if self.command_bar
                is None {
                self.quit_asked(after)
            } else {
                after == self
            },
            Command::System(SystemCommand::Resize(size)) => request is Nothing && self.resized(
                size,
                after,
            ),
            Command::System(SystemCommand::Save) => exists|calm: EditorState|
                #![trigger self.quit_forgotten(calm)]
                self.quit_forgotten(calm) && if calm.command_bar is None {
                    calm.save_asked(after, request)
                } else {
                    after == calm && request is Nothing
                },
            Command::System(SystemCommand::Dismiss) => request is Nothing && exists|
                calm: EditorState,
            |
                #![trigger self.quit_forgotten(calm)]
                self.quit_forgotten(calm) && if calm.command_bar is Some {
                    exists|bare: EditorState|
                        #![trigger calm.dismissed(bare)]
                        calm.dismissed(bare) && shows(
                            bare.message_bar,
                            "Save aborted."@,
                            after.message_bar,
                        ) && after == (EditorState { message_bar: after.message_bar, ..bare })
                } else {
                    after == calm
                },
            Command::Edit(edit) => exists|calm: EditorState|
                #![trigger self.quit_forgotten(calm)]
                self.quit_forgotten(calm) && match calm.command_bar {
                    Some(bar) => if edit is InsertNewline {
                        calm.dismissed(after) && calm.asks_to_save_as(text_of(bar.typed()), request)
                    } else {
                        &&& request is Nothing
                        &&& after.command_bar matches Some(edited)
                        &&& edited.wf()
                        &&& CommandBar::edits(bar.typed(), edit, edited.typed())
                        &&& edited.marked()
                        &&& edited.prompt() == bar.prompt()
                        &&& edited.size() == bar.size()
                        &&& after == (EditorState { command_bar: after.command_bar, ..calm })
                    },
                    None => {
                        &&& request is Nothing
                        &&& calm.view.edits(edit, after.view)
                        &&& after == (EditorState { view: after.view, ..calm })
                    },
                },
            Command::Move(moving) => request is Nothing && exists|calm: EditorState|
                #![trigger self.quit_forgotten(calm)]
                self.quit_forgotten(calm) && if calm.command_bar is None {
                    after == (EditorState { view: calm.view.moved(moving).scrolled(), ..calm })
                } else {
                    after == calm
                },
        }
    }

    /// `frame` is what has to be painted of this editor, and `after` the editor once
    /// that was handed out. Nothing is painted in a terminal without rows or without
    /// columns. The bar in the last row is the command bar while there is one, the
    /// message bar else; the status bar has the row above, if there is one; the
    /// window on the document has the rows above that, if there are any. Each is
    /// handed out only if it is out of date. The cursor belongs into the command
    /// bar while there is one, and else where it stands in the window.
    pub open spec fn refreshed(self, frame: Option<Frame>, after: EditorState) -> bool {
        let Size { height, width } = self.terminal_size;
        if height == 0 || width == 0 {
            frame is None && after == self
        } else {
            &&& frame matches Some(frame)
            &&& frame.bottom_row == height - 1
            &&& frame.status_row == minus_or_zero(height as int, 2)
            &&& match self.command_bar {
                Some(bar) => {
                    &&& after.command_bar matches Some(drawn)
                    &&& renders(bar, frame.bottom_row, frame.bottom, drawn)
                    &&& after.message_bar == self.message_bar
                    &&& frame.caret.row == frame.bottom_row
                    &&& frame.caret.col == if plus_or_max(
                        byte_count(bar.prompt()),
                        bar.typed().len() as usize,
                    ) <= bar.size().width {
                        plus_or_max(byte_count(bar.prompt()), bar.typed().len() as usize)
                    } else {
                        bar.size().width
                    }
                },
                None => {
                    &&& after.command_bar is None
                    &&& renders(self.message_bar, frame.bottom_row, frame.bottom, after.message_bar)
                    &&& frame.caret == self.view.caret()
                },
            }
            &&& if height > 1 {
                renders(self.status_bar, frame.status_row, frame.status, after.status_bar)
            } else {
                frame.status is None && after.status_bar == self.status_bar
            }
            &&& if height > 2 {
                match frame.document {
                    Some(rows) => self.view.needs_redraw && self.view.drawn(0, texts_of(rows@)),
                    None => !self.view.needs_redraw,
                }
            } else {
                frame.document is None
            }
            &&& after == (EditorState {
                command_bar: after.command_bar,
                message_bar: after.message_bar,
                status_bar: after.status_bar,
                ..self
            })
        }
    }

    /// `after` is this editor once it was told how painting `part` went: once
    /// painted, the part is up to date; where painting failed, it stays as it is.
    pub open spec fn painted(
        self,
        part: Part,
        outcome: Result<(), IoError>,
        after: EditorState,
    ) -> bool {
        match part {
            Part::Bottom => match self.command_bar {
                Some(bar) => {
                    &&& after.command_bar matches Some(told)
                    &&& takes_in(bar, outcome, told)
                    &&& after == (EditorState { command_bar: after.command_bar, ..self })
                },
                None => {
                    &&& takes_in(self.message_bar, outcome, after.message_bar)
                    &&& after == (EditorState { message_bar: after.message_bar, ..self })
                },
            },
            Part::Status => {
                &&& takes_in(self.status_bar, outcome, after.status_bar)
                &&& after == (EditorState { status_bar: after.status_bar, ..self })
            },
            Part::Document => after == (EditorState {
                view: if outcome is Ok {
                    ViewState { needs_redraw: false, ..self.view }
                } else {
                    self.view
                },
                ..self
            }),
        }
    }

    /// `after` is this editor once it was told how writing the document went, to
    /// the file `file_name` or, where none is given, to the document's own: the
    /// document takes the outcome in, and the message bar tells it.
    pub open spec fn saved(
        self,
        file_name: Option<Seq<char>>,
        written: Result<(), IoError>,
        after: EditorState,
    ) -> bool {
        let ok = match file_name {
            Some(_) => written is Ok,
            None => written is Ok || self.view.buffer.path is None,
        };
        &&& after.view == self.view.with_buffer(after.view.buffer)
        &&& after.view.buffer.rows == self.view.buffer.rows
        &&& after.view.buffer.path == match file_name {
            Some(name) => if written is Ok {
                Some(name)
            } else {
                self.view.buffer.path
            },
            None => self.view.buffer.path,
        }
        &&& after.view.buffer.dirty == match file_name {
            Some(_) => self.view.buffer.dirty && written is Err,
            None => self.view.buffer.dirty && (written is Err || self.view.buffer.path is None),
        }
        &&& shows(
            self.message_bar,
            if ok {
                "File saved successfully."@
            } else {
                "Error writing file!"@
            },
            after.message_bar,
        )
        &&& after == (EditorState { view: after.view, message_bar: after.message_bar, ..self })
    }
}

/// The editor.
pub struct Editor {
    should_quit: bool,
    view: View,
    status_bar: StatusBar,
    message_bar: MessageBar,
    command_bar: Option<CommandBar>,
    terminal_size: Size,
    title: String,
    quit_times: u8,
    name: String,
}

impl vstd::view::View for Editor {
    type V = EditorState;

    closed spec fn view(&self) -> EditorState {
        EditorState {
            should_quit: self.should_quit,
            view: self.view@,
            status_bar: self.status_bar,
            message_bar: self.message_bar,
            command_bar: self.command_bar,
            terminal_size: self.terminal_size,
            title: self.title@,
            quit_times: self.quit_times,
            name: self.name@,
        }
    }
}

impl Editor {
    /// The window on the document is well formed, and so is the command bar if
    /// there is one; quitting was not asked for `QUIT_TIMES` times.
    pub closed spec fn wf(&self) -> bool {
        &&& self.view.wf()
        &&& self.command_bar matches Some(bar) ==> bar.wf()
        &&& self.quit_times < QUIT_TIMES
    }

    /// An editor for the program `name` in the version `version`, in a terminal of
    /// the size `size`, at the time `now`: without a document, and with a message
    /// that tells the keys to save and to quit.
    pub fn new(name: &str, version: &str, size: Size, now: u128) -> (editor: Editor)
        ensures
            editor.wf(),
            !editor@.should_quit,
            editor@.view == ViewState::start(name@, version@).resized(
                document_size(size),
            ).scrolled().redrawn(),
            editor@.terminal_size == size,
            editor@.command_bar is None,
            editor@.title == Seq::<char>::empty(),
            editor@.quit_times == 0,
            editor@.name == name@,
            editor@.message_bar.text() == "HELP: Ctrl-S = save | Ctrl-Q = quit"@,
            editor@.message_bar.since() == now,
            editor@.message_bar.now() == now,
            editor@.message_bar.marked(),
            editor@.status_bar.size() == bar_size(size),
            editor@.status_bar.marked(),
            editor@.status_bar.status().blank(),
    {
        let mut editor = Editor {
            should_quit: false,
            view: View::new(name, version),
            status_bar: StatusBar::default(),
            message_bar: MessageBar::new(now),
            command_bar: None,
            terminal_size: Size { height: 0, width: 0 },
            title: String::new(),
            quit_times: 0,
            name: String::from_str(name),
        };
        editor.resize(size);
        editor.message_bar.update_message(String::from_str("HELP: Ctrl-S = save | Ctrl-Q = quit"));
        editor
    }

    /// Whether the editor is to stop.
    pub fn should_quit(&self) -> (quit: bool)
        ensures
            quit == self@.should_quit,
    {
        self.should_quit
    }

    /// Tells the editor the time.
    pub fn set_time(&mut self, now: u128)
        requires
            old(self).wf(),
        ensures
            final(self).wf(),
            final(self)@.message_bar.now() == now,
            final(self)@.message_bar.text() == old(self)@.message_bar.text(),
            final(self)@.message_bar.since() == old(self)@.message_bar.since(),
            final(self)@.message_bar.marked() == old(self)@.message_bar.marked(),
            final(self)@.message_bar.cleared() == old(self)@.message_bar.cleared(),
            final(self)@ == (EditorState { message_bar: final(self)@.message_bar, ..old(self)@ }),
    {
        self.message_bar.set_time(now);
    }

    /// Takes in what was read from the file `file_name`: content becomes the
    /// document; a failure to read is told in the message bar.
    pub fn load(&mut self, file_name: &str, read: Result<String, IoError>)
        requires
            old(self).wf(),
            read matches Ok(content) ==> text_fits(content@.len()),
        ensures
            final(self).wf(),
            match read {
                Ok(content) => {
                    &&& crate::buffer::loaded(content@, final(self)@.view.buffer.rows)
                    &&& final(self)@.view.buffer.path == Some(file_name@)
                    &&& final(self)@.view.buffer.dirty == old(self)@.view.buffer.dirty
                    &&& final(self)@.view == old(self)@.view.after_load(final(self)@.view.buffer)
                    &&& final(self)@ == (EditorState { view: final(self)@.view, ..old(self)@ })
                },
                Err(_) => {
                    &&& shows(
                        old(self)@.message_bar,
                        "ERR: Could not open file: "@ + file_name@,
                        final(self)@.message_bar,
                    )
                    &&& final(self)@ == (EditorState {
                        message_bar: final(self)@.message_bar,
                        ..old(self)@
                    })
                },
            },
    {
        if self.view.load(file_name, read).is_err() {
            let mut message = String::from_str("ERR: Could not open file: ");
            message.append(file_name);
            self.message_bar.update_message(message);
        }
    }

    /// Gives the editor the size of the terminal.
    pub fn resize(&mut self, size: Size)
        requires
            old(self).wf(),
        ensures
            final(self).wf(),
            old(self)@.resized(size, final(self)@),
    {
        self.terminal_size = size;
        self.view.resize(Size { height: size.height.saturating_sub(2), width: size.width });
        self.message_bar.resize(Size { height: 1, width: size.width });
        self.status_bar.resize(Size { height: 1, width: size.width });
        match &mut self.command_bar {
            Some(command_bar) => {
                command_bar.resize(Size { height: 1, width: size.width });
            },
            None => {},
        }
    }

    /// Brings the status bar up to date with the document, and gives the title
    /// that the terminal is to show if it is not the one in use: the name of the
    /// file, a dash and the name of the program.
    pub fn refresh_status(&mut self) -> (title: Option<String>)
        requires
            old(self).wf(),
        ensures
            final(self).wf(),
            final(self)@ == (EditorState { status_bar: final(self)@.status_bar, ..old(self)@ }),
            final(self)@.status_bar.size() == old(self)@.status_bar.size(),
            final(self)@.status_bar.status().total_lines == old(self)@.view.height(),
            final(self)@.status_bar.status().curr_line_ind == old(self)@.view.location.row,
            final(self)@.status_bar.status().is_modified == old(self)@.view.buffer.dirty,
            match title {
                Some(title) => title@ != old(self)@.title && title@
                    == final(self)@.status_bar.status().file_name@ + " - "@ + old(self)@.name,
                None => old(self)@.title == final(self)@.status_bar.status().file_name@ + " - "@
                    + old(self)@.name,
            },
    {
        let status = self.view.get_status();
        let mut title = status.file_name.clone();
        title.append(" - ");
        title.append(self.name.as_str());
        self.status_bar.update_status(status);
        if title != self.title {
            Some(title)
        } else {
            None
        }
    }

    /// Takes in how setting the title `title` went: once set, it is the title in
    /// use.
    pub fn title_set(&mut self, title: String, outcome: Result<(), IoError>)
        requires
            old(self).wf(),
        ensures
            final(self).wf(),
            final(self)@ == (EditorState {
                title: if outcome is Ok {
                    title@
                } else {
                    old(self)@.title
                },
                ..old(self)@
            }),
    {
        if outcome.is_ok() {
            self.title = title;
        }
    }

    /// Whether the editor can carry out `command`.
    pub fn can_process(&self, command: Command) -> (can: bool)
        requires
            self.wf(),
        ensures
            can == self@.accepts(command),
    {
        match command {
            Command::Edit(edit) => match &self.command_bar {
                Some(bar) => match edit {
                    EditCommand::InsertNewline => true,
                    _ => bar.can_handle(edit),
                },
                None => self.view.has_room(edit),
            },
            _ => true,
        }
    }

    /// Carries out what `event` asks for, if it is the press of a key or a new size
    /// of the terminal and asks for anything the editor knows of.
    pub fn evaluate_event(&mut self, event: InputEvent) -> (request: Request)
        requires
            old(self).wf(),
            command_of(event) matches Some(command) ==> old(self)@.accepts(command),
        ensures
            final(self).wf(),
            match command_of(event) {
                Some(command) if !(event matches InputEvent::Key(key) && key.kind
                    != KeyKind::Press) => old(self)@.processed(command, final(self)@, request),
                _ => final(self)@ == old(self)@ && request is Nothing,
            },
    {
        let should_process = match event {
            InputEvent::Key(key) => match key.kind {
                KeyKind::Press => true,
                _ => false,
            },
            InputEvent::Resize(_, _) => true,
            _ => false,
        };
        if !should_process {
            return Request::Nothing;
        }
        match Command::try_from(event) {
            Ok(command) => self.process_command(command),
            Err(_) => Request::Nothing,
        }
    }

    /// Carries out `command`.
    pub fn process_command(&mut self, command: Command) -> (request: Request)
        requires
            old(self).wf(),
            old(self)@.accepts(command),
        ensures
            final(self).wf(),
            old(self)@.processed(command, final(self)@, request),
    {
        match command {
            Command::System(SystemCommand::Quit) => {
                if self.command_bar.is_none() {
                    self.handle_quit()
                }
            },
            Command::System(SystemCommand::Resize(size)) => self.resize(size),
            _ => self.reset_quit_times(),
        }
        match command {
            Command::System(SystemCommand::Quit) => Request::Nothing,
            Command::System(SystemCommand::Resize(_)) => Request::Nothing,
            Command::System(SystemCommand::Save) => {
                if self.command_bar.is_none() {
                    self.handle_save()
                } else {
                    Request::Nothing
                }
            },
            Command::System(SystemCommand::Dismiss) => {
                if self.command_bar.is_some() {
                    self.dismiss_prompt();
                    self.message_bar.update_message(String::from_str("Save aborted."));
                }
                Request::Nothing
            },
            Command::Edit(edit_command) => {
                match &mut self.command_bar {
                    Some(command_bar) => {
                        match edit_command {
                            EditCommand::InsertNewline => {
                                let file_name = command_bar.value();
                                self.dismiss_prompt();
                                Request::SaveAs { file_name, text: self.view.file_text() }
                            },
                            _ => {
                                command_bar.handle_edit_command(edit_command);
                                Request::Nothing
                            },
                        }
                    },
                    None => {
                        self.view.handle_edit_command(edit_command);
                        Request::Nothing
                    },
                }
            },
            Command::Move(move_command) => {
                if self.command_bar.is_none() {
                    self.view.handle_move_command(move_command);
                }
                Request::Nothing
            },
        }
    }

    /// Drops the command bar.
    fn dismiss_prompt(&mut self)
        requires
            old(self).wf(),
        ensures
            final(self).wf(),
            old(self)@.dismissed(final(self)@),
    {
        self.command_bar = None;
        self.message_bar.set_needs_redraw(true);
    }

    /// Sets up a command bar that asks for a file name.
    fn show_prompt(&mut self)
        requires
            old(self).wf(),
        ensures
            final(self).wf(),
            old(self)@.prompted(final(self)@),
    {
        let mut command_bar = CommandBar::default();
        command_bar.set_prompt("Save as: ");
        command_bar.resize(Size { height: 1, width: self.terminal_size.width });
        command_bar.set_needs_redraw(true);
        self.command_bar = Some(command_bar);
    }

    /// Asks to write the document to its file, or for a file name where it has no
    /// file.
    fn handle_save(&mut self) -> (request: Request)
        requires
            old(self).wf(),
        ensures
            final(self).wf(),
            old(self)@.save_asked(final(self)@, request),
    {
        match self.view.get_path() {
            Some(path) => Request::Save {
                path: String::from_str(path),
                text: self.view.file_text(),
            },
            None => {
                self.show_prompt();
                Request::Nothing
            },
        }
    }

    /// Quits, or warns of unsaved changes.
    fn handle_quit(&mut self)
        requires
            old(self).wf(),
        ensures
            final(self).wf(),
            old(self)@.quit_asked(final(self)@),
    {
        if !self.view.get_status().is_modified || self.quit_times + 1 == QUIT_TIMES {
            self.should_quit = true;
        } else if self.view.get_status().is_modified {
            let mut message = String::from_str("WARNING! File has unsaved changes. Press Ctrl-Q ");
            let times = crate::text::decimal_string((QUIT_TIMES - self.quit_times - 1) as usize);
            message.append(times.as_str());
            message.append(" more times to quit.");
            self.message_bar.update_message(message);
            self.quit_times += 1;
        }
    }

    /// Takes in how writing the document went, to the file `file_name` or, where
    /// none is given, to the document's own, and tells it in the message bar.
    pub fn save(&mut self, file_name: Option<&str>, written: Result<(), IoError>)
        requires
            old(self).wf(),
        ensures
            final(self).wf(),
            old(self)@.saved(
                match file_name {
                    Some(name) => Some(name@),
                    None => None,
                },
                written,
                final(self)@,
            ),
    {
        let result = match file_name {
            Some(name) => self.view.save_as(name, written),
            None => self.view.save(written),
        };
        if result.is_ok() {
            self.message_bar.update_message(String::from_str("File saved successfully."));
        } else {
            self.message_bar.update_message(String::from_str("Error writing file!"));
        }
    }

    /// Gives what has to be painted.
    pub fn refresh_screen(&mut self) -> (frame: Option<Frame>)
        requires
            old(self).wf(),
        ensures
            final(self).wf(),
            old(self)@.refreshed(frame, final(self)@),
    {
        if self.terminal_size.height == 0 || self.terminal_size.width == 0 {
            return None;
        }
        let bottom_bar_row = self.terminal_size.height.saturating_sub(1);
        let status_row = self.terminal_size.height.saturating_sub(2);
        let bottom = match &mut self.command_bar {
            Some(command_bar) => command_bar.render(bottom_bar_row),
            None => self.message_bar.render(bottom_bar_row),
        };
        let status = if self.terminal_size.height > 1 {
            self.status_bar.render(status_row)
        } else {
            None
        };
        let document = if self.terminal_size.height > 2 {
            self.view.render(0)
        } else {
            None
        };
        let caret = match &self.command_bar {
            Some(command_bar) => Position {
                row: bottom_bar_row,
                col: command_bar.caret_position_col(),
            },
            None => self.view.caret_position(),
        };
        Some(Frame { bottom_row: bottom_bar_row, bottom, status_row, status, document, caret })
    }

    /// Takes in how painting `part` went.
    pub fn painted(&mut self, part: Part, outcome: Result<(), IoError>)
        requires
            old(self).wf(),
        ensures
            final(self).wf(),
            old(self)@.painted(part, outcome, final(self)@),
    {
        match part {
            Part::Bottom => match &mut self.command_bar {
                Some(command_bar) => command_bar.painted(outcome),
                None => self.message_bar.painted(outcome),
            },
            Part::Status => self.status_bar.painted(outcome),
            Part::Document => self.view.painted(outcome),
        }
    }

    /// Forgets that quitting was asked for.
    fn reset_quit_times(&mut self)
        requires
            old(self).wf(),
        ensures
            final(self).wf(),
            old(self)@.quit_forgotten(final(self)@),
    {
        if self.quit_times > 0 {
            self.quit_times = 0;
            self.message_bar.update_message(String::new());
        }
    }
}

} // verus!
