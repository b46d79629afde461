use std::collections::VecDeque;
use vstd::prelude::*;

use crate::files::{
    mp3_file_name_spec, mp3_file_path, path_in_dir, raw_file_name, raw_file_name_spec, raw_file_path,
};

verus! {

/// How many songs the worker keeps downloaded ahead, counted from zero: the
/// download queue holds at most `MAX_LOADS + 1` songs, and the file counter
/// runs through `0..=MAX_LOADS`.
pub const MAX_LOADS: u32 = 5;

/// The text of an optional string.
pub open spec fn text_view(text: Option<String>) -> Option<Seq<char>> {
    match text {
        Some(s) => Some(s@),
        None => None,
    }
}

/// A song that a listener asked for, by its link.
#[derive(Clone, Debug, PartialEq, Eq)]
pub struct Song {
    pub link: String,
}

impl View for Song {
    type V = Seq<char>;

    open spec fn view(&self) -> Seq<char> {
        self.link@
    }
}

/// A song whose audio has been fetched and converted, ready to be played.
#[derive(Clone, Debug, PartialEq, Eq)]
pub struct DownloadedSong {
    pub link: String,
    pub title: Option<String>,
    pub raw_file_path: Option<String>,
    pub mp3_file_path: Option<String>,
}

/// The texts of a downloaded song.
pub struct DownloadedSongView {
    pub link: Seq<char>,
    pub title: Option<Seq<char>>,
    pub raw_file_path: Option<Seq<char>>,
    pub mp3_file_path: Option<Seq<char>>,
}

impl View for DownloadedSong {
    type V = DownloadedSongView;

    open spec fn view(&self) -> DownloadedSongView {
        DownloadedSongView {
            link: self.link@,
            title: text_view(self.title),
            raw_file_path: text_view(self.raw_file_path),
            mp3_file_path: text_view(self.mp3_file_path),
        }
    }
}

/// The commands that reach the queue worker: a song was added, or the
/// player ran out of audio.
#[derive(PartialEq, Eq, Structural, Clone, Copy, Debug)]
pub enum QueueCommand {
    Empty,
    Add,
}

/// What the queue worker is doing between two of its steps.
enum Phase {
    Ready,
    Playing(DownloadedSong),
    Downloading(Song),
}

/// What the queue worker is doing between two of its steps, as the contracts
/// see it.
pub enum PhaseView {
    /// Waiting for the next command.
    Ready,
    /// The song has been taken from the download queue and handed to the player.
    Playing(DownloadedSongView),
    /// The song with this link has been taken from the request queue and is
    /// being fetched.
    Downloading(Seq<char>),
}

/// What the program around the worker has to do next.
#[derive(Debug, PartialEq, Eq)]
pub enum WorkerAction {
    /// Nothing: wait for the next command.
    Idle,
    /// Open and play the converted file of the song taken for playing, if it has one,
    /// then report with `playback_finished`.
    Play { mp3_file_path: Option<String> },
    /// Fetch the audio behind `link` into the output directory under
    /// `raw_file_name` (that is, to `raw_file_path`), convert it to
    /// `mp3_file_path`, look up its title, then report with `download_finished`.
    Download {
        link: String,
        counter: u32,
        raw_file_name: String,
        raw_file_path: String,
        mp3_file_path: String,
    },
}

/// A worker action, as the contracts see it.
pub enum ActionView {
    Idle,
    Play { mp3_file_path: Option<Seq<char>> },
    Download {
        link: Seq<char>,
        counter: u32,
        raw_file_name: Seq<char>,
        raw_file_path: Seq<char>,
        mp3_file_path: Seq<char>,
    },
}

impl View for WorkerAction {
    type V = ActionView;

    open spec fn view(&self) -> ActionView {
        match self {
            WorkerAction::Idle => ActionView::Idle,
            WorkerAction::Play { mp3_file_path } => ActionView::Play {
                mp3_file_path: text_view(*mp3_file_path),
            },
            WorkerAction::Download { link, counter, raw_file_name, raw_file_path, mp3_file_path } =>
                ActionView::Download {
                link: link@,
                counter: *counter,
                raw_file_name: raw_file_name@,
                raw_file_path: raw_file_path@,
                mp3_file_path: mp3_file_path@,
            },
        }
    }
}

/// What a successful download produced besides its files: the song's title,
/// if it could be found.
#[derive(Debug, PartialEq, Eq)]
pub struct DownloadReport {
    pub title: Option<String>,
}

/// The counter that names the next download's files after `counter` was used.
pub open spec fn following_counter(counter: u32) -> u32 {
    if counter < MAX_LOADS {
        (counter + 1) as u32
    } else {
        0
    }
}

/// The counter with which the song at position `i` of a download queue of
/// `len` songs was fetched, when `counter` names the next download: the
/// queue's songs were fetched one after another, the last one just before.
pub open spec fn stored_counter(counter: u32, len: nat, i: int) -> u32 {
    ((counter + (MAX_LOADS + 1) - (len - i)) % (MAX_LOADS + 1) as int) as u32
}

/// The state of the queues, as the contracts see it.
#[verifier::ext_equal]
pub struct PlayerModel {
    /// The links waiting to be downloaded, first requested first.
    pub queue: Seq<Seq<char>>,
    /// The songs waiting to be played, first downloaded first.
    pub downloaded: Seq<DownloadedSongView>,
    pub now_playing: Option<DownloadedSongView>,
    pub counter: u32,
    pub phase: PhaseView,
    /// The directory the downloaded and converted files go to.
    pub output_dir: Seq<char>,
}

impl PlayerModel {
    /// One slot of the download queue is held by the song being played or fetched.
    pub open spec fn held_slots(self) -> nat {
        match self.phase {
            PhaseView::Ready => 0,
            _ => 1,
        }
    }

    /// Where download number `counter` puts the fetched audio.
    pub open spec fn raw_path(self, counter: u32) -> Seq<char> {
        path_in_dir(self.output_dir, raw_file_name_spec(counter))
    }

    /// Where download number `counter` puts the converted file.
    pub open spec fn mp3_path(self, counter: u32) -> Seq<char> {
        path_in_dir(self.output_dir, mp3_file_name_spec(counter))
    }

    /// Each song of the download queue is stored under the files named after
    /// the counter it was fetched with.
    pub open spec fn files_follow_counter(self) -> bool {
        forall|i: int|
            0 <= i < self.downloaded.len() ==> {
                &&& (#[trigger] self.downloaded[i]).raw_file_path == Some(
                    self.raw_path(stored_counter(self.counter, self.downloaded.len(), i)),
                )
                &&& self.downloaded[i].mp3_file_path == Some(
                    self.mp3_path(stored_counter(self.counter, self.downloaded.len(), i)),
                )
            }
    }

    /// The counter stays in range, the download queue, with the slot of the
    /// song in hand, never holds more than `MAX_LOADS + 1` songs, and its
    /// songs' files are named after the counters they were fetched with.
    pub open spec fn wf(self) -> bool {
        &&& self.counter <= MAX_LOADS
        &&& self.downloaded.len() + self.held_slots() <= MAX_LOADS + 1
        &&& self.files_follow_counter()
    }

    /// The state after a listener added the song with `link`.
    pub open spec fn enqueued(self, link: Seq<char>) -> PlayerModel {
        PlayerModel { queue: self.queue.push(link), ..self }
    }

    /// Takes the first requested song, if any, for downloading.
    pub open spec fn took_next_download(self) -> PlayerModel {
        if self.queue.len() > 0 {
            PlayerModel {
                queue: self.queue.drop_first(),
                phase: PhaseView::Downloading(self.queue[0]),
                ..self
            }
        } else {
            PlayerModel { phase: PhaseView::Ready, ..self }
        }
    }

    /// The action that goes with `took_next_download`.
    pub open spec fn next_download_action(self) -> ActionView {
        if self.queue.len() > 0 {
            ActionView::Download {
                link: self.queue[0],
                counter: self.counter,
                raw_file_name: raw_file_name_spec(self.counter),
                raw_file_path: self.raw_path(self.counter),
                mp3_file_path: self.mp3_path(self.counter),
            }
        } else {
            ActionView::Idle
        }
    }

    /// A download starts on `Add` when a song is waiting and the download
    /// queue has room.
    pub open spec fn add_starts_download(self) -> bool {
        self.queue.len() > 0 && self.downloaded.len() < MAX_LOADS + 1
    }

    /// The state after the worker took `command`.
    pub open spec fn after_command(self, command: QueueCommand) -> PlayerModel {
        match command {
            QueueCommand::Add => if self.add_starts_download() {
                self.took_next_download()
            } else {
                self
            },
            QueueCommand::Empty => if self.downloaded.len() > 0 {
                PlayerModel {
                    downloaded: self.downloaded.drop_first(),
                    phase: PhaseView::Playing(self.downloaded[0]),
                    ..self
                }
            } else {
                self
            },
        }
    }

    /// The action the worker asks for after taking `command`.
    pub open spec fn command_action(self, command: QueueCommand) -> ActionView {
        match command {
            QueueCommand::Add => if self.add_starts_download() {
                self.next_download_action()
            } else {
                ActionView::Idle
            },
            QueueCommand::Empty => if self.downloaded.len() > 0 {
                ActionView::Play { mp3_file_path: self.downloaded[0].mp3_file_path }
            } else {
                ActionView::Idle
            },
        }
    }

    /// The song in hand is now playing if it `started`.
    pub open spec fn shown_playing(self, started: bool) -> PlayerModel {
        if started {
            PlayerModel { now_playing: Some(self.phase->Playing_0), ..self }
        } else {
            self
        }
    }

    /// After the player tried the song in hand: it is now playing if it
    /// `started`, and the next requested song is taken for downloading.
    pub open spec fn after_playback(self, started: bool) -> PlayerModel {
        self.shown_playing(started).took_next_download()
    }

    /// The action the worker asks for after the player tried the song in hand.
    pub open spec fn playback_action(self, started: bool) -> ActionView {
        self.shown_playing(started).next_download_action()
    }

    /// The state after the song in hand was fetched and converted (`Some`,
    /// with its title) or failed (`None`).
    pub open spec fn after_download(self, report: Option<DownloadReport>) -> PlayerModel {
        match report {
            Some(r) => PlayerModel {
                downloaded: self.downloaded.push(DownloadedSongView {
                    link: self.phase->Downloading_0,
                    title: text_view(r.title),
                    raw_file_path: Some(self.raw_path(self.counter)),
                    mp3_file_path: Some(self.mp3_path(self.counter)),
                }),
                counter: following_counter(self.counter),
                phase: PhaseView::Ready,
                ..self
            },
            None => PlayerModel { phase: PhaseView::Ready, ..self },
        }
    }
}

/// The shared state of the request queue, the download queue, the song now
/// playing and the file counter.
pub struct PlayerState {
    queue: VecDeque<Song>,
    downloaded: VecDeque<DownloadedSong>,
    now_playing: Option<DownloadedSong>,
    counter: u32,
    phase: Phase,
    output_dir: String,
}

spec fn phase_view(phase: Phase) -> PhaseView {
    match phase {
        Phase::Ready => PhaseView::Ready,
        Phase::Playing(song) => PhaseView::Playing(song@),
        Phase::Downloading(song) => PhaseView::Downloading(song@),
    }
}

/// The texts of the song now playing, if any.
pub open spec fn playing_view(song: Option<DownloadedSong>) -> Option<DownloadedSongView> {
    match song {
        Some(s) => Some(s@),
        None => None,
    }
}

impl View for PlayerState {
    type V = PlayerModel;

    closed spec fn view(&self) -> PlayerModel {
        PlayerModel {
            queue: self.queue@.map_values(|s: Song| s@),
            downloaded: self.downloaded@.map_values(|s: DownloadedSong| s@),
            now_playing: playing_view(self.now_playing),
            counter: self.counter,
            phase: phase_view(self.phase),
            output_dir: self.output_dir@,
        }
    }
}

/// An empty request queue.
pub fn new_queue() -> (queue: VecDeque<Song>)
    ensures
        queue@ == Seq::<Song>::empty(),
{
    VecDeque::new()
}

/// An empty download queue.
pub fn new_download_queue() -> (queue: VecDeque<DownloadedSong>)
    ensures
        queue@ == Seq::<DownloadedSong>::empty(),
{
    VecDeque::new()
}

/// Nothing is playing yet.
pub fn new_now_playing() -> (playing: Option<DownloadedSong>)
    ensures
        playing is None,
{
    None
}

fn clone_path(path: &Option<String>) -> (copy: Option<String>)
    ensures
        copy == *path,
{
    match path {
        Some(p) => Some(p.clone()),
        None => None,
    }
}

/// After a successful download the counters of the songs already queued stay
/// the same, and the new last song has the counter that was used.
proof fn lemma_stored_counter_after_push(counter: u32, len: nat, i: int)
    requires
        counter <= MAX_LOADS,
        len <= MAX_LOADS,
        0 <= i <= len,
    ensures
        stored_counter(following_counter(counter), len + 1, i) == if i < len {
            stored_counter(counter, len, i)
        } else {
            counter
        },
{
}

impl PlayerState {
    #[verifier::type_invariant]
    spec fn inv(self) -> bool {
        self@.wf()
    }

    /// Empty queues, nothing playing, the counter at zero, waiting for
    /// commands; files go to `output_dir`.
    pub fn new(output_dir: String) -> (state: Self)
        ensures
            state@.wf(),
            state@ == (PlayerModel {
                queue: Seq::empty(),
                downloaded: Seq::empty(),
                now_playing: None,
                counter: 0,
                phase: PhaseView::Ready,
                output_dir: output_dir@,
            }),
    {
        let state = PlayerState {
            queue: new_queue(),
            downloaded: new_download_queue(),
            now_playing: new_now_playing(),
            counter: 0,
            phase: Phase::Ready,
            output_dir,
        };
        assert(state@.queue =~= Seq::<Seq<char>>::empty());
        assert(state@.downloaded =~= Seq::<DownloadedSongView>::empty());
        state
    }

    /// The songs waiting to be downloaded, first requested first.
    pub fn queue(&self) -> (queue: &VecDeque<Song>)
        ensures
            queue@.map_values(|s: Song| s@) == self@.queue,
            self@.wf(),
    {
        proof {
            use_type_invariant(self);
        }
        &self.queue
    }

    /// The songs downloaded and waiting to be played, first downloaded first.
    pub fn downloaded(&self) -> (downloaded: &VecDeque<DownloadedSong>)
        ensures
            downloaded@.map_values(|s: DownloadedSong| s@) == self@.downloaded,
            self@.wf(),
    {
        proof {
            use_type_invariant(self);
        }
        &self.downloaded
    }

    /// The song the player was last given successfully.
    pub fn now_playing(&self) -> (playing: &Option<DownloadedSong>)
        ensures
            playing_view(*playing) == self@.now_playing,
    {
        &self.now_playing
    }

    /// The counter that names the next download's files.
    pub fn counter(&self) -> (counter: u32)
        ensures
            counter == self@.counter,
            self@.wf(),
    {
        proof {
            use_type_invariant(self);
        }
        self.counter
    }

    /// The directory the downloaded and converted files go to.
    pub fn output_dir(&self) -> (dir: &String)
        ensures
            dir@ == self@.output_dir,
    {
        &self.output_dir
    }

    /// Whether the worker waits for a command.
    pub fn is_ready(&self) -> (ready: bool)
        ensures
            ready == self@.phase is Ready,
            self@.wf(),
    {
        proof {
            use_type_invariant(self);
        }
        match self.phase {
            Phase::Ready => true,
            _ => false,
        }
    }

    /// Whether the worker waits to hear how playback went.
    pub fn is_playing(&self) -> (playing: bool)
        ensures
            playing == self@.phase is Playing,
            self@.wf(),
    {
        proof {
            use_type_invariant(self);
        }
        match self.phase {
            Phase::Playing(_) => true,
            _ => false,
        }
    }

    /// Whether the worker waits to hear how a download went.
    pub fn is_downloading(&self) -> (downloading: bool)
        ensures
            downloading == self@.phase is Downloading,
            self@.wf(),
    {
        proof {
            use_type_invariant(self);
        }
        match self.phase {
            Phase::Downloading(_) => true,
            _ => false,
        }
    }

    /// A listener adds `song` at the back of the request queue; the worker is
    /// then to be told `Add`.
    pub fn enqueue(&mut self, song: Song) -> (command: QueueCommand)
        ensures
            final(self)@.wf(),
            final(self)@ == old(self)@.enqueued(song@),
            command == QueueCommand::Add,
    {
        proof {
            use_type_invariant(&*self);
        }
        let ghost link = song@;
        let mut queue = new_queue();
        std::mem::swap(&mut queue, &mut self.queue);
        queue.push_back(song);
        self.queue = queue;
        proof {
            assert(self@.queue =~= old(self)@.queue.push(link));
            use_type_invariant(&*self);
        }
        QueueCommand::Add
    }

    fn take_next_download(&mut self) -> (action: WorkerAction)
        requires
            old(self)@.downloaded.len() + 1 <= MAX_LOADS + 1,
        ensures
            final(self)@ == old(self)@.took_next_download(),
            action@ == old(self)@.next_download_action(),
    {
        proof {
            use_type_invariant(&*self);
        }
        let mut queue = new_queue();
        std::mem::swap(&mut queue, &mut self.queue);
        let next = queue.pop_front();
        self.queue = queue;
        match next {
            Some(song) => {
                let link = song.link.clone();
                let raw_name = raw_file_name(self.counter);
                let raw_path = raw_file_path(self.output_dir.as_str(), self.counter);
                let mp3_path = mp3_file_path(self.output_dir.as_str(), self.counter);
                assert(self@.queue =~= old(self)@.queue.drop_first());
                self.phase = Phase::Downloading(song);
                WorkerAction::Download {
                    link,
                    counter: self.counter,
                    raw_file_name: raw_name,
                    raw_file_path: raw_path,
                    mp3_file_path: mp3_path,
                }
            },
            None => {
                self.phase = Phase::Ready;
                WorkerAction::Idle
            },
        }
    }

    /// The worker takes a command: on `Add` it starts downloading the first
    /// requested song if the download queue has room; on `Empty` it hands the
    /// first downloaded song to the player.
    pub fn handle_command(&mut self, command: QueueCommand) -> (action: WorkerAction)
        requires
            old(self)@.phase is Ready,
        ensures
            final(self)@.wf(),
            final(self)@ == old(self)@.after_command(command),
            action@ == old(self)@.command_action(command),
    {
        proof {
            use_type_invariant(&*self);
        }
        match command {
            QueueCommand::Add => {
                if self.queue.len() > 0 && self.downloaded.len() < (MAX_LOADS as usize) + 1 {
                    let action = self.take_next_download();
                    proof {
                        use_type_invariant(&*self);
                    }
                    action
                } else {
                    WorkerAction::Idle
                }
            },
            QueueCommand::Empty => {
                let mut downloaded = new_download_queue();
                std::mem::swap(&mut downloaded, &mut self.downloaded);
                let ghost before = downloaded@;
                match downloaded.pop_front() {
                    Some(next_up) => {
                        let path = clone_path(&next_up.mp3_file_path);
                        proof {
                            assert(downloaded@.map_values(|s: DownloadedSong| s@)
                                =~= old(self)@.downloaded.drop_first());
                        }
                        self.downloaded = downloaded;
                        self.phase = Phase::Playing(next_up);
                        proof {
                            use_type_invariant(&*self);
                        }
                        WorkerAction::Play { mp3_file_path: path }
                    },
                    None => {
                        self.downloaded = downloaded;
                        proof {
                            assert(self@ =~= old(self)@);
                        }
                        WorkerAction::Idle
                    },
                }
            },
        }
    }

    /// The player reports whether the song in hand `started`; if it did, it is
    /// now playing. Then the next requested song, if any, is taken for
    /// downloading (its slot is the one the played song left).
    pub fn playback_finished(&mut self, started: bool) -> (action: WorkerAction)
        requires
            old(self)@.phase is Playing,
        ensures
            final(self)@.wf(),
            final(self)@ == old(self)@.after_playback(started),
            action@ == old(self)@.playback_action(started),
    {
        proof {
            use_type_invariant(&*self);
        }
        let mut phase = Phase::Ready;
        std::mem::swap(&mut phase, &mut self.phase);
        match phase {
            Phase::Playing(song) => {
                if started {
                    self.now_playing = Some(song);
                }
            },
            _ => {},
        }
        proof {
            assert(self@ =~= (PlayerModel { phase: PhaseView::Ready, ..old(self)@.shown_playing(started) }));
        }
        let action = self.take_next_download();
        proof {
            use_type_invariant(&*self);
        }
        action
    }

    /// The fetcher reports the song in hand: on success (with the title it
    /// found) it joins the back of the download queue, stored under the files
    /// named after the current counter, and the counter moves on; on failure
    /// it is dropped.
    pub fn download_finished(&mut self, report: Option<DownloadReport>)
        requires
            old(self)@.phase is Downloading,
        ensures
            final(self)@.wf(),
            final(self)@ == old(self)@.after_download(report),
    {
        proof {
            use_type_invariant(&*self);
        }
        let mut phase = Phase::Ready;
        std::mem::swap(&mut phase, &mut self.phase);
        match phase {
            Phase::Downloading(song) => {
                match report {
                    Some(r) => {
                        let raw_path = raw_file_path(self.output_dir.as_str(), self.counter);
                        let mp3_path = mp3_file_path(self.output_dir.as_str(), self.counter);
                        let mut downloaded = new_download_queue();
                        std::mem::swap(&mut downloaded, &mut self.downloaded);
                        let ghost old_counter = self.counter;
                        let ghost old_len = downloaded@.len();
                        downloaded.push_back(DownloadedSong {
                            link: song.link,
                            title: r.title,
                            raw_file_path: Some(raw_path),
                            mp3_file_path: Some(mp3_path),
                        });
                        self.counter = next_counter(self.counter);
                        proof {
                            let m = old(self)@;
                            let d = downloaded@.map_values(|s: DownloadedSong| s@);
                            let new_song = DownloadedSongView {
                                link: m.phase->Downloading_0,
                                title: text_view(r.title),
                                raw_file_path: Some(m.raw_path(m.counter)),
                                mp3_file_path: Some(m.mp3_path(m.counter)),
                            };
                            assert(d =~= m.downloaded.push(new_song));
                            assert forall|i: int| 0 <= i < d.len() implies {
                                &&& (#[trigger] d[i]).raw_file_path == Some(
                                    m.raw_path(stored_counter(self.counter, d.len(), i)),
                                )
                                &&& d[i].mp3_file_path == Some(
                                    m.mp3_path(stored_counter(self.counter, d.len(), i)),
                                )
                            } by {
                                lemma_stored_counter_after_push(old_counter, old_len, i);
                            }
                        }
                        self.downloaded = downloaded;
                    },
                    None => {},
                }
            },
            _ => {},
        }
        proof {
            assert(self@ =~= old(self)@.after_download(report));
        }
    }
}

/// The counter after a successful download: it counts up to `MAX_LOADS`
/// and then starts again at zero.
pub fn next_counter(counter: u32) -> (next: u32)
    ensures
        next == following_counter(counter),
{
    if counter < MAX_LOADS {
        counter + 1
    } else {
        0
    }
}

} // verus!
