//! The state of the program and the step that every message takes it
//! through: what changes, and what has to be done outside.

use vstd::prelude::*;
use crate::message::{DownloadMessage, Key, Message, Notice};
use crate::queue::{advanced, maybe, started_by, DownloadQueue, QueueEvent};
use crate::search::{filtered, query};
use crate::text::{pop_char, push_char};
use crate::transfer::{
    is_ending, is_transfer_message, lemma_one_ending_per_transfer, run, sent, TransferEvent,
    TransferState,
};
use crate::types::{Anime, DownloadInfo, Episode};

verus! {

/// Which list the keyboard works on.
#[derive(Debug, Clone, Copy, PartialEq, Eq, Structural)]
pub enum SelectMode {
    Anime,
    Episode,
}

impl Default for SelectMode {
    fn default() -> (mode: Self)
        ensures
            mode == SelectMode::Anime,
    {
        SelectMode::Anime
    }
}

/// A step through a list.
#[derive(Debug, Clone, Copy, PartialEq, Eq, Structural)]
pub enum Direction {
    Previous,
    Next,
}

/// The entries that the two lists highlight at the moment.
#[derive(Debug, PartialEq, Eq)]
pub struct Highlight {
    pub anime: Option<Anime>,
    pub episode: Option<Episode>,
}

/// What a step asks the surrounding program to do.
#[derive(Debug, PartialEq, Eq)]
pub enum Effect {
    /// Put a message on the channel.
    Send(Message),
    /// Fetch the episodes of a collection and show them.
    LoadEpisodes(Anime),
    /// Start the transfer of a request.
    StartTransfer(DownloadInfo),
    /// Append a line to the notification area.
    ShowNotice(Notice),
    /// Show the collections that the query lists now.
    RefreshAnimes,
    /// Move the highlight of a list.
    MoveSelection(SelectMode, Direction),
    /// Leave the program.
    Exit,
}

/// The state of the program.
#[derive(Debug, Clone)]
pub struct State {
    pub select_mode: SelectMode,
    pub animes: Vec<Anime>,
    pub selected_anime: Anime,
    pub query: String,
    pub download_progress: Option<(u64, u64)>,
    pub download_queue: DownloadQueue,
}

/// The state of the program as plain values.
pub struct StateView {
    pub select_mode: SelectMode,
    pub animes: Seq<Anime>,
    pub selected_anime: Anime,
    pub query: Seq<char>,
    pub download_progress: Option<(u64, u64)>,
    pub download_queue: Seq<DownloadInfo>,
}

impl View for State {
    type V = StateView;

    open spec fn view(&self) -> StateView {
        StateView {
            select_mode: self.select_mode,
            animes: self.animes@,
            selected_anime: self.selected_anime,
            query: self.query@,
            download_progress: self.download_progress,
            download_queue: self.download_queue@,
        }
    }
}

/// The transfer to start, as an effect.
pub open spec fn start_effects(start: Option<DownloadInfo>) -> Seq<Effect> {
    match start {
        Some(request) => seq![Effect::StartTransfer(request)],
        None => Seq::empty(),
    }
}

/// The message to send for the highlighted entry of the list in use.
pub open spec fn selection_effects(mode: SelectMode, highlight: Highlight) -> Seq<Effect> {
    match mode {
        SelectMode::Anime => match highlight.anime {
            Some(anime) => seq![Effect::Send(Message::AnimeSelected(anime))],
            None => Seq::empty(),
        },
        SelectMode::Episode => match highlight.episode {
            Some(episode) => seq![Effect::Send(Message::EpisodeSelected(episode))],
            None => Seq::empty(),
        },
    }
}

impl StateView {
    /// The state after the active transfer has left the queue.
    pub open spec fn settled(self) -> StateView {
        StateView {
            download_progress: None,
            download_queue: advanced(self.download_queue),
            ..self
        }
    }

    /// The state after a message about the active transfer.
    pub open spec fn after_download(self, msg: DownloadMessage) -> StateView {
        match msg {
            DownloadMessage::Progress(fetched, total) => StateView {
                download_progress: Some((fetched, total)),
                ..self
            },
            DownloadMessage::Finished => self.settled(),
            DownloadMessage::Starting => self,
            DownloadMessage::Failed(_) => self.settled(),
        }
    }

    /// What a message about the active transfer asks for: a notice of the
    /// start, of the end or of the failure, and after an end or a failure
    /// the start of the next transfer, where a request is waiting.
    pub open spec fn download_effects(self, msg: DownloadMessage) -> Seq<Effect> {
        match msg {
            DownloadMessage::Progress(_, _) => Seq::empty(),
            DownloadMessage::Finished => seq![
                Effect::Send(Message::Notification(Notice::Finished)),
            ] + start_effects(started_by(self.download_queue, QueueEvent::Finished)),
            DownloadMessage::Starting => seq![
                Effect::Send(Message::Notification(Notice::Starting)),
            ],
            DownloadMessage::Failed(error) => seq![
                Effect::Send(Message::Notification(Notice::Failed(error))),
            ] + start_effects(started_by(self.download_queue, QueueEvent::Failed(error))),
        }
    }

    /// The state after a key.
    pub open spec fn after_key(self, key: Key) -> StateView {
        match key {
            Key::Backspace => StateView {
                query: if self.query.len() > 0 {
                    self.query.drop_last()
                } else {
                    self.query
                },
                ..self
            },
            Key::Char(c) => StateView { query: self.query.push(c), ..self },
            Key::Esc => StateView { select_mode: SelectMode::Anime, ..self },
            _ => self,
        }
    }

    /// What a key asks for.
    pub open spec fn key_effects(self, key: Key, highlight: Highlight) -> Seq<Effect> {
        match key {
            Key::Backspace => seq![Effect::RefreshAnimes],
            Key::Char(_) => seq![Effect::RefreshAnimes],
            Key::Enter => selection_effects(self.select_mode, highlight),
            Key::Up => seq![Effect::MoveSelection(self.select_mode, Direction::Previous)],
            Key::Down => seq![Effect::MoveSelection(self.select_mode, Direction::Next)],
            Key::Esc => match self.select_mode {
                SelectMode::Anime => seq![Effect::Exit],
                SelectMode::Episode => Seq::empty(),
            },
            _ => Seq::empty(),
        }
    }

    /// The request that the selection of an episode makes.
    pub open spec fn request_for(self, episode: Episode) -> DownloadInfo {
        DownloadInfo(self.selected_anime, episode)
    }

    /// The state after a message.
    pub open spec fn after_message(self, msg: Message) -> StateView {
        match msg {
            Message::KeyboardInput(key) => self.after_key(key),
            Message::AnimeSelected(anime) => StateView {
                selected_anime: anime,
                select_mode: SelectMode::Episode,
                ..self
            },
            Message::EpisodeSelected(episode) => StateView {
                download_queue: self.download_queue.push(self.request_for(episode)),
                ..self
            },
            Message::Download(msg) => self.after_download(msg),
            Message::Notification(_) => self,
        }
    }

    /// What a message asks for.
    pub open spec fn message_effects(self, msg: Message, highlight: Highlight) -> Seq<Effect> {
        match msg {
            Message::KeyboardInput(key) => self.key_effects(key, highlight),
            Message::AnimeSelected(anime) => seq![
                Effect::LoadEpisodes(anime),
                Effect::Send(Message::Notification(Notice::Selected(anime))),
            ],
            Message::EpisodeSelected(episode) => start_effects(
                started_by(
                    self.download_queue,
                    QueueEvent::Enqueue(self.request_for(episode)),
                ),
            ),
            Message::Download(msg) => self.download_effects(msg),
            Message::Notification(notice) => seq![Effect::ShowNotice(notice)],
        }
    }
}

impl Default for State {
    fn default() -> (state: Self)
        ensures
            state@.select_mode == SelectMode::Anime,
            state@.animes.len() == 0,
            state@.query.len() == 0,
            state@.download_progress is None,
            state@.download_queue.len() == 0,
    {
        State {
            select_mode: SelectMode::Anime,
            animes: Vec::new(),
            selected_anime: Anime::default(),
            query: String::new(),
            download_progress: None,
            download_queue: DownloadQueue::new(),
        }
    }
}

impl State {
    /// The collections that the query lists, in the order of the catalog.
    pub fn query(&self) -> (found: Vec<Anime>)
        ensures
            found@ == filtered(self@.animes, self@.query),
    {
        query(&self.animes, self.query.as_str())
    }

    /// Takes a message about the active transfer.
    pub fn on_download_message(&mut self, msg: DownloadMessage) -> (effects: Vec<Effect>)
        ensures
            final(self)@ == old(self)@.after_download(msg),
            effects@ == old(self)@.download_effects(msg),
    {
        let mut effects: Vec<Effect> = Vec::new();
        match msg {
            DownloadMessage::Progress(fetched, total) => {
                self.download_progress = Some((fetched, total));
            },
            DownloadMessage::Finished => {
                self.download_progress = None;
                let advance = self.download_queue.on_finished();
                effects.push(Effect::Send(Message::Notification(Notice::Finished)));
                match advance.start {
                    Some(request) => effects.push(Effect::StartTransfer(request)),
                    None => {},
                }
            },
            DownloadMessage::Starting => {
                effects.push(Effect::Send(Message::Notification(Notice::Starting)));
            },
            DownloadMessage::Failed(error) => {
                self.download_progress = None;
                let advance = self.download_queue.on_failed(error);
                effects.push(Effect::Send(Message::Notification(Notice::Failed(error))));
                match advance.start {
                    Some(request) => effects.push(Effect::StartTransfer(request)),
                    None => {},
                }
            },
        }
        assert(effects@ =~= old(self)@.download_effects(msg));
        effects
    }

    /// Takes a key.
    pub fn on_keyboard_message(&mut self, key: Key, highlight: &Highlight) -> (effects: Vec<
        Effect,
    >)
        ensures
            final(self)@ == old(self)@.after_key(key),
            effects@ == old(self)@.key_effects(key, *highlight),
    {
        let mut effects: Vec<Effect> = Vec::new();
        match key {
            Key::Backspace => {
                let _ = pop_char(&mut self.query);
                effects.push(Effect::RefreshAnimes);
            },
            Key::Enter => match self.select_mode {
                SelectMode::Anime => match &highlight.anime {
                    Some(anime) => effects.push(
                        Effect::Send(Message::AnimeSelected(anime.clone())),
                    ),
                    None => {},
                },
                SelectMode::Episode => match &highlight.episode {
                    Some(episode) => effects.push(
                        Effect::Send(Message::EpisodeSelected(episode.clone())),
                    ),
                    None => {},
                },
            },
            Key::Up => {
                effects.push(Effect::MoveSelection(self.select_mode, Direction::Previous));
            },
            Key::Down => {
                effects.push(Effect::MoveSelection(self.select_mode, Direction::Next));
            },
            Key::Char(c) => {
                push_char(&mut self.query, c);
                effects.push(Effect::RefreshAnimes);
            },
            Key::Esc => match self.select_mode {
                SelectMode::Anime => effects.push(Effect::Exit),
                SelectMode::Episode => {
                    self.select_mode = SelectMode::Anime;
                },
            },
            _ => {},
        }
        assert(effects@ =~= old(self)@.key_effects(key, *highlight));
        effects
    }

    /// Takes a message from the channel.
    pub fn on_message(&mut self, msg: Message, highlight: &Highlight) -> (effects: Vec<Effect>)
        ensures
            final(self)@ == old(self)@.after_message(msg),
            effects@ == old(self)@.message_effects(msg, *highlight),
    {
        match msg {
            Message::KeyboardInput(key) => self.on_keyboard_message(key, highlight),
            Message::AnimeSelected(anime) => {
                self.selected_anime = anime.clone();
                self.select_mode = SelectMode::Episode;
                let mut effects: Vec<Effect> = Vec::new();
                effects.push(Effect::LoadEpisodes(anime.clone()));
                effects.push(Effect::Send(Message::Notification(Notice::Selected(anime))));
                assert(effects@ =~= old(self)@.message_effects(msg, *highlight));
                effects
            },
            Message::EpisodeSelected(episode) => {
                let request = DownloadInfo(self.selected_anime.clone(), episode);
                let mut effects: Vec<Effect> = Vec::new();
                match self.download_queue.enqueue(request) {
                    Some(first) => effects.push(Effect::StartTransfer(first)),
                    None => {},
                }
                assert(effects@ =~= old(self)@.message_effects(msg, *highlight));
                effects
            },
            Message::Download(msg) => self.on_download_message(msg),
            Message::Notification(notice) => {
                let mut effects: Vec<Effect> = Vec::new();
                effects.push(Effect::ShowNotice(notice));
                assert(effects@ =~= old(self)@.message_effects(msg, *highlight));
                effects
            },
        }
    }
}

impl StateView {
    /// The state after a sequence of messages.
    pub open spec fn after_messages(self, messages: Seq<Message>) -> StateView
        decreases messages.len(),
    {
        if messages.len() == 0 {
            self
        } else {
            self.after_messages(messages.drop_last()).after_message(messages.last())
        }
    }

    /// Whether another state differs from this one in the progress shown at most.
    pub open spec fn same_but_progress(self, other: StateView) -> bool {
        other == (StateView { download_progress: other.download_progress, ..self })
    }
}

/// The messages that a transfer sends before it ends change nothing in the
/// state but the progress shown.
proof fn lemma_running_transfer_keeps_queue(view: StateView, messages: Seq<Message>)
    requires
        forall|i: int|
            0 <= i < messages.len() ==> is_transfer_message(#[trigger] messages[i]) && !is_ending(
                messages[i],
            ),
    ensures
        view.same_but_progress(view.after_messages(messages)),
    decreases messages.len(),
{
    if messages.len() > 0 {
        lemma_running_transfer_keeps_queue(view, messages.drop_last());
        assert(is_transfer_message(messages[messages.len() - 1]));
    }
}

/// One transfer, one step of the queue: when the messages that a transfer
/// sends reach the state, the queue loses its head exactly when the transfer
/// has ended, and then once, with the progress cleared; until then, and in
/// everything else, the state stays as it was.
pub proof fn lemma_transfer_advances_queue_once(
    view: StateView,
    start: TransferState,
    events: Seq<TransferEvent>,
)
    requires
        !start.is_terminal(),
    ensures
        ({
            let after = view.after_messages(sent(start, events));
            if run(start, events).is_terminal() {
                after == view.settled()
            } else {
                view.same_but_progress(after)
            }
        }),
{
    let out = sent(start, events);
    lemma_one_ending_per_transfer(start, events);
    if run(start, events).is_terminal() {
        let running = out.drop_last();
        assert forall|i: int| 0 <= i < running.len() implies is_transfer_message(
            #[trigger] running[i],
        ) && !is_ending(running[i]) by {
            assert(running[i] == out[i]);
        }
        lemma_running_transfer_keeps_queue(view, running);
    } else {
        assert forall|i: int| 0 <= i < out.len() implies is_transfer_message(#[trigger] out[i])
            && !is_ending(out[i]) by {
            if i == out.len() - 1 {
                assert(out[i] == out.last());
            }
        }
        lemma_running_transfer_keeps_queue(view, out);
    }
}

} // verus!
