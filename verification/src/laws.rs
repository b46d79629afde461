use vstd::prelude::*;

use crate::decimal::{decimal_digits, digits_value, lemma_decimal_round_trip};
use crate::files::{ffmpeg_args_spec, lemma_file_names_differ, mp3_file_name_spec, path_in_dir, raw_file_name_spec};
use crate::server::{qr_pixel, server_url_spec, QR_MODULE_PIXELS, QR_QUIET_ZONE};
use crate::startup::{has_reset_flag, is_fresh, poll_step_spec, LibraryDir, PollStep};
use crate::player::{
    following_counter, stored_counter, text_view, ActionView, DownloadReport, DownloadedSongView, PhaseView,
    PlayerModel, QueueCommand, MAX_LOADS,
};

verus! {

/// The counter after `n` successful downloads starting from `counter`.
pub open spec fn counter_after(counter: u32, n: nat) -> u32
    decreases n,
{
    if n == 0 {
        counter
    } else {
        following_counter(counter_after(counter, (n - 1) as nat))
    }
}

proof fn lemma_counter_after_mod(counter: u32, n: nat)
    requires
        counter <= MAX_LOADS,
    ensures
        counter_after(counter, n) == (counter + n) % (MAX_LOADS + 1),
    decreases n,
{
    if n > 0 {
        lemma_counter_after_mod(counter, (n - 1) as nat);
    }
}

/// The file counter goes round `0..=MAX_LOADS`: the `MAX_LOADS + 1`
/// downloads that follow one another get different counters, hence different
/// file names and, in one output directory, different paths; the next one
/// comes back to the first counter.
pub proof fn lemma_counter_cycles(dir: Seq<char>, counter: u32, j: nat, k: nat)
    requires
        counter <= MAX_LOADS,
        j < k <= MAX_LOADS,
    ensures
        counter_after(counter, j) != counter_after(counter, k),
        counter_after(counter, k) <= MAX_LOADS,
        path_in_dir(dir, raw_file_name_spec(counter_after(counter, j))) != path_in_dir(
            dir,
            raw_file_name_spec(counter_after(counter, k)),
        ),
        path_in_dir(dir, mp3_file_name_spec(counter_after(counter, j))) != path_in_dir(
            dir,
            mp3_file_name_spec(counter_after(counter, k)),
        ),
        counter_after(counter, (MAX_LOADS + 1) as nat) == counter,
{
    lemma_counter_after_mod(counter, j);
    lemma_counter_after_mod(counter, k);
    lemma_counter_after_mod(counter, (MAX_LOADS + 1) as nat);
    lemma_file_names_differ(dir, counter_after(counter, j), counter_after(counter, k));
}

/// In every well-formed state the download queue holds at most
/// `MAX_LOADS + 1` songs, the counter is at most `MAX_LOADS`, and no two
/// songs of the download queue share a fetched file or a converted file.
pub proof fn lemma_download_queue_bounded(m: PlayerModel)
    requires
        m.wf(),
    ensures
        m.downloaded.len() <= MAX_LOADS + 1,
        m.counter <= MAX_LOADS,
        forall|i: int, j: int|
            0 <= i < j < m.downloaded.len() ==> #[trigger] m.downloaded[i].mp3_file_path
                != #[trigger] m.downloaded[j].mp3_file_path && m.downloaded[i].raw_file_path
                != m.downloaded[j].raw_file_path,
{
    assert forall|i: int, j: int| 0 <= i < j < m.downloaded.len() implies #[trigger] m.downloaded[i].mp3_file_path
        != #[trigger] m.downloaded[j].mp3_file_path && m.downloaded[i].raw_file_path
        != m.downloaded[j].raw_file_path by {
        let len = m.downloaded.len();
        let ci = stored_counter(m.counter, len, i);
        let cj = stored_counter(m.counter, len, j);
        assert(ci != cj);
        lemma_file_names_differ(m.output_dir, ci, cj);
    }
}

/// The files the fetcher is told to write on `Add` are the files the
/// downloaded song is then stored under.
pub proof fn lemma_download_stores_announced_files(m: PlayerModel, report: DownloadReport)
    requires
        m.wf(),
        m.phase is Ready,
        m.add_starts_download(),
    ensures
        ({
            let after = m.after_command(QueueCommand::Add).after_download(Some(report));
            let stored = after.downloaded.last();
            match m.command_action(QueueCommand::Add) {
                ActionView::Download { link, counter, raw_file_name, raw_file_path, mp3_file_path } => {
                    &&& counter == m.counter
                    &&& raw_file_name == raw_file_name_spec(m.counter)
                    &&& raw_file_path == path_in_dir(m.output_dir, raw_file_name_spec(m.counter))
                    &&& mp3_file_path == path_in_dir(m.output_dir, mp3_file_name_spec(m.counter))
                    &&& stored == (DownloadedSongView {
                        link,
                        title: text_view(report.title),
                        raw_file_path: Some(raw_file_path),
                        mp3_file_path: Some(mp3_file_path),
                    })
                    &&& after.counter == following_counter(m.counter)
                },
                _ => false,
            }
        }),
{
}

/// Requests are served first come, first served: adding a song at the back
/// does not change which song an `Add` starts downloading when another one
/// was waiting, and the two steps give the same state in either order.
pub proof fn lemma_enqueue_commutes_with_download(m: PlayerModel, link: Seq<char>)
    requires
        m.wf(),
        m.phase is Ready,
        m.add_starts_download(),
    ensures
        m.enqueued(link).after_command(QueueCommand::Add) == m.after_command(QueueCommand::Add).enqueued(
            link,
        ),
        m.enqueued(link).command_action(QueueCommand::Add) == m.command_action(QueueCommand::Add),
{
    assert(m.queue.push(link).drop_first() =~= m.queue.drop_first().push(link));
}

/// A song added to an empty request queue is downloaded by the next `Add`
/// when the download queue has room.
pub proof fn lemma_added_song_is_fetched_next(m: PlayerModel, link: Seq<char>)
    requires
        m.wf(),
        m.phase is Ready,
        m.queue.len() == 0,
        m.downloaded.len() < MAX_LOADS + 1,
    ensures
        m.enqueued(link).command_action(QueueCommand::Add) matches ActionView::Download {
            link: l,
            ..
        } && l == link,
        m.enqueued(link).after_command(QueueCommand::Add).queue.len() == 0,
{
}

/// Commands with nothing to do change nothing: `Add` with no request waiting
/// or with a full download queue, and `Empty` with nothing downloaded.
pub proof fn lemma_idle_commands(m: PlayerModel)
    requires
        m.wf(),
        m.phase is Ready,
    ensures
        !m.add_starts_download() ==> m.after_command(QueueCommand::Add) == m && m.command_action(
            QueueCommand::Add,
        ) is Idle,
        m.downloaded.len() == 0 ==> m.after_command(QueueCommand::Empty) == m && m.command_action(
            QueueCommand::Empty,
        ) is Idle,
{
}

/// Songs are played in the order they were downloaded: after a download
/// finishes, the next `Empty` plays the oldest downloaded song, which is the
/// new one only when nothing else was waiting.
pub proof fn lemma_played_in_download_order(m: PlayerModel, report: DownloadReport)
    requires
        m.wf(),
        m.phase is Downloading,
    ensures
        m.after_download(Some(report)).command_action(QueueCommand::Empty) == (ActionView::Play {
            mp3_file_path: if m.downloaded.len() > 0 {
                m.downloaded[0].mp3_file_path
            } else {
                Some(m.mp3_path(m.counter))
            },
        }),
{
}

/// Two requests fetched one after the other are played in the order they were
/// asked for, and then nothing is left to play.
pub proof fn lemma_two_requests_play_in_order(
    m: PlayerModel,
    first: DownloadReport,
    second: DownloadReport,
    started_first: bool,
    started_second: bool,
)
    requires
        m.wf(),
        m.phase is Ready,
        m.downloaded.len() == 0,
        m.queue.len() == 2,
    ensures
        ({
            let s1 = m.after_command(QueueCommand::Add).after_download(Some(first));
            let s2 = s1.after_command(QueueCommand::Add).after_download(Some(second));
            let p1 = s2.after_command(QueueCommand::Empty);
            let r1 = p1.after_playback(started_first);
            let p2 = r1.after_command(QueueCommand::Empty);
            let r2 = p2.after_playback(started_second);
            &&& p1.phase matches PhaseView::Playing(x1) && x1.link == m.queue[0]
            &&& r1.phase is Ready
            &&& p2.phase matches PhaseView::Playing(x2) && x2.link == m.queue[1]
            &&& r2.phase is Ready
            &&& r2.command_action(QueueCommand::Empty) is Idle
            &&& r2.after_command(QueueCommand::Empty) == r2
        }),
{
    let s1 = m.after_command(QueueCommand::Add).after_download(Some(first));
    assert(s1.queue =~= m.queue.drop_first());
    let s2 = s1.after_command(QueueCommand::Add).after_download(Some(second));
    assert(s2.queue.len() == 0);
    assert(s2.downloaded.len() == 2);
    let p1 = s2.after_command(QueueCommand::Empty);
    let r1 = p1.after_playback(started_first);
    assert(r1.downloaded.len() == 1);
    let p2 = r1.after_command(QueueCommand::Empty);
    let r2 = p2.after_playback(started_second);
    assert(r2.downloaded.len() == 0);
}

/// A failed download loses only the song that was being fetched: the request
/// queue, the download queue, the song now playing and the counter stay.
pub proof fn lemma_failed_download_keeps_state(m: PlayerModel)
    requires
        m.wf(),
        m.phase is Downloading,
    ensures
        m.after_download(None) == (PlayerModel { phase: PhaseView::Ready, ..m }),
        m.after_download(None).wf(),
{
}

/// A song that the player could not start is not shown as playing.
pub proof fn lemma_failed_playback_keeps_now_playing(m: PlayerModel)
    requires
        m.wf(),
        m.phase is Playing,
    ensures
        m.after_playback(false).now_playing == m.now_playing,
        m.after_playback(true).now_playing == Some(m.phase->Playing_0),
{
}

/// A listener's request goes to the back of the request queue and changes
/// nothing else.
pub proof fn lemma_enqueue_appends(m: PlayerModel, link: Seq<char>)
    ensures
        m.enqueued(link).queue.len() == m.queue.len() + 1,
        m.enqueued(link).queue.last() == link,
        m.enqueued(link).queue.take(m.queue.len() as int) == m.queue,
        m.enqueued(link).downloaded == m.downloaded,
        m.enqueued(link).now_playing == m.now_playing,
        m.enqueued(link).counter == m.counter,
        m.enqueued(link).phase == m.phase,
        m.enqueued(link).output_dir == m.output_dir,
{
    assert(m.queue.push(link).take(m.queue.len() as int) =~= m.queue);
}

/// `Add` with a waiting request and room in the download queue takes the
/// oldest request for fetching, into the files named after the current
/// counter, and changes nothing else.
pub proof fn lemma_add_fetches_oldest_request(m: PlayerModel)
    requires
        m.wf(),
        m.phase is Ready,
        m.queue.len() > 0,
        m.downloaded.len() < MAX_LOADS + 1,
    ensures
        ({
            let a = m.after_command(QueueCommand::Add);
            &&& a.queue.len() + 1 == m.queue.len()
            &&& forall|i: int| 0 <= i < a.queue.len() ==> #[trigger] a.queue[i] == m.queue[i + 1]
            &&& a.phase == PhaseView::Downloading(m.queue[0])
            &&& a.downloaded == m.downloaded
            &&& a.now_playing == m.now_playing
            &&& a.counter == m.counter
            &&& a.output_dir == m.output_dir
        }),
        m.command_action(QueueCommand::Add) == (ActionView::Download {
            link: m.queue[0],
            counter: m.counter,
            raw_file_name: raw_file_name_spec(m.counter),
            raw_file_path: path_in_dir(m.output_dir, raw_file_name_spec(m.counter)),
            mp3_file_path: path_in_dir(m.output_dir, mp3_file_name_spec(m.counter)),
        }),
{
}

/// `Empty` with something downloaded hands the oldest downloaded song, all of
/// it (link, title and files), to the player and changes nothing else; once
/// it starts, that very song is the one shown as playing.
pub proof fn lemma_empty_hands_over_oldest_download(m: PlayerModel)
    requires
        m.wf(),
        m.phase is Ready,
        m.downloaded.len() > 0,
    ensures
        ({
            let p = m.after_command(QueueCommand::Empty);
            &&& p.phase == PhaseView::Playing(m.downloaded[0])
            &&& p.downloaded.len() + 1 == m.downloaded.len()
            &&& forall|i: int| 0 <= i < p.downloaded.len() ==> #[trigger] p.downloaded[i] == m.downloaded[i + 1]
            &&& p.queue == m.queue
            &&& p.now_playing == m.now_playing
            &&& p.counter == m.counter
            &&& p.output_dir == m.output_dir
            &&& p.after_playback(true).now_playing == Some(m.downloaded[0])
            &&& p.after_playback(false).now_playing == m.now_playing
        }),
        m.command_action(QueueCommand::Empty) == (ActionView::Play {
            mp3_file_path: m.downloaded[0].mp3_file_path,
        }),
{
}

/// After the player tried the song in hand, the oldest waiting request, if
/// any, is taken for fetching (first come, first served, as after `Add`) into
/// the files named after the current counter; the song in hand is shown as
/// playing exactly when it started; nothing else changes.
pub proof fn lemma_playback_fetches_oldest_request(m: PlayerModel, started: bool)
    requires
        m.wf(),
        m.phase is Playing,
    ensures
        ({
            let r = m.after_playback(started);
            &&& r.now_playing == if started {
                Some(m.phase->Playing_0)
            } else {
                m.now_playing
            }
            &&& r.downloaded == m.downloaded
            &&& r.counter == m.counter
            &&& r.output_dir == m.output_dir
            &&& m.queue.len() > 0 ==> {
                &&& r.queue.len() + 1 == m.queue.len()
                &&& forall|i: int| 0 <= i < r.queue.len() ==> #[trigger] r.queue[i] == m.queue[i + 1]
                &&& r.phase == PhaseView::Downloading(m.queue[0])
                &&& m.playback_action(started) == (ActionView::Download {
                    link: m.queue[0],
                    counter: m.counter,
                    raw_file_name: raw_file_name_spec(m.counter),
                    raw_file_path: path_in_dir(m.output_dir, raw_file_name_spec(m.counter)),
                    mp3_file_path: path_in_dir(m.output_dir, mp3_file_name_spec(m.counter)),
                })
            }
            &&& m.queue.len() == 0 ==> {
                &&& r.queue == m.queue
                &&& r.phase is Ready
                &&& m.playback_action(started) is Idle
            }
        }),
{
}

/// A finished download puts the fetched song, with the title found and the
/// files named after the counter it was fetched with, at the back of the
/// download queue, and the counter moves on by one, from `MAX_LOADS` back to
/// zero; a failed one only returns the worker to waiting.
pub proof fn lemma_download_outcome(m: PlayerModel, report: DownloadReport)
    requires
        m.wf(),
        m.phase is Downloading,
    ensures
        ({
            let d = m.after_download(Some(report));
            &&& d.downloaded.len() == m.downloaded.len() + 1
            &&& d.downloaded.take(m.downloaded.len() as int) == m.downloaded
            &&& d.downloaded.last() == (DownloadedSongView {
                link: m.phase->Downloading_0,
                title: text_view(report.title),
                raw_file_path: Some(path_in_dir(m.output_dir, raw_file_name_spec(m.counter))),
                mp3_file_path: Some(path_in_dir(m.output_dir, mp3_file_name_spec(m.counter))),
            })
            &&& d.counter == if m.counter < MAX_LOADS {
                m.counter + 1
            } else {
                0
            }
            &&& d.queue == m.queue
            &&& d.now_playing == m.now_playing
            &&& d.output_dir == m.output_dir
            &&& d.phase is Ready
        }),
        m.after_download(None).phase is Ready,
        m.after_download(None).downloaded == m.downloaded,
        m.after_download(None).queue == m.queue,
        m.after_download(None).counter == m.counter,
{
    let d = m.after_download(Some(report));
    assert(d.downloaded.take(m.downloaded.len() as int) =~= m.downloaded);
}

/// The two files of download number `counter` share the stem
/// `track_{counter}` (whose digits read back as `counter`): the fetched audio
/// adds `_raw.webm`, the converted file `.mp3`.
pub proof fn lemma_file_name_parts(counter: u32)
    ensures
        ({
            let raw = raw_file_name_spec(counter);
            let mp3 = mp3_file_name_spec(counter);
            &&& raw.len() >= 16 && mp3.len() >= 11
            &&& raw.subrange(raw.len() - 9, raw.len() as int) == "_raw.webm"@
            &&& mp3.subrange(mp3.len() - 4, mp3.len() as int) == ".mp3"@
            &&& raw.subrange(0, raw.len() - 9) == mp3.subrange(0, mp3.len() - 4)
            &&& mp3.subrange(0, 6) == "track_"@
            &&& digits_value(mp3.subrange(6, mp3.len() - 4)) == counter
        }),
{
    reveal_strlit("track_");
    reveal_strlit("_raw.webm");
    reveal_strlit(".mp3");
    lemma_decimal_round_trip(counter as nat);
    let t = "track_"@;
    let d = decimal_digits(counter as nat);
    let raw = raw_file_name_spec(counter);
    let mp3 = mp3_file_name_spec(counter);
    assert(raw.subrange(raw.len() - 9, raw.len() as int) =~= "_raw.webm"@);
    assert(mp3.subrange(mp3.len() - 4, mp3.len() as int) =~= ".mp3"@);
    assert(raw.subrange(0, raw.len() - 9) =~= t + d);
    assert(mp3.subrange(0, mp3.len() - 4) =~= t + d);
    assert(mp3.subrange(0, 6) =~= t);
    assert(mp3.subrange(6, mp3.len() - 4) =~= d);
}

/// A file's path in a directory starts with the directory and ends with the
/// file's name, with one `/` between them unless the directory is empty or
/// already ends in one.
pub proof fn lemma_path_in_dir_parts(dir: Seq<char>, name: Seq<char>)
    ensures
        ({
            let p = path_in_dir(dir, name);
            let joined = dir.len() > 0 && dir.last() != '/';
            &&& p.len() == dir.len() + name.len() + if joined { 1int } else { 0int }
            &&& p.subrange(0, dir.len() as int) == dir
            &&& p.subrange(p.len() - name.len(), p.len() as int) == name
            &&& joined ==> p[dir.len() as int] == '/'
        }),
{
    let p = path_in_dir(dir, name);
    assert(p.subrange(0, dir.len() as int) =~= dir);
    assert(p.subrange(p.len() - name.len(), p.len() as int) =~= name);
}

/// The page's address is `http://`, the host, `:` and the port's decimal
/// digits, which read back as the port.
pub proof fn lemma_server_url_parts(host: Seq<char>, port: u16)
    ensures
        ({
            let url = server_url_spec(host, port);
            let h = 7 + host.len();
            &&& url.subrange(0, 7) == "http://"@
            &&& url.subrange(7, h as int) == host
            &&& url[h as int] == ':'
            &&& digits_value(url.subrange((h + 1) as int, url.len() as int)) == port
        }),
{
    reveal_strlit("http://");
    reveal_strlit(":");
    lemma_decimal_round_trip(port as nat);
    let url = server_url_spec(host, port);
    let h = 7 + host.len();
    assert(url.subrange(0, 7) =~= "http://"@);
    assert(url.subrange(7, h as int) =~= host);
    assert(url.subrange((h + 1) as int, url.len() as int) =~= decimal_digits(port as nat));
}

/// ffmpeg is told to overwrite (`-y`), to read `input` (`-i`), to drop video
/// (`-vn`), to encode with LAME (`-codec:a libmp3lame`) at quality 2
/// (`-qscale:a 2`), and to write `output`, last.
pub proof fn lemma_ffmpeg_args_parts(input: Seq<char>, output: Seq<char>)
    ensures
        ({
            let a = ffmpeg_args_spec(input, output);
            &&& a.len() == 9
            &&& a[0] == "-y"@
            &&& a[1] == "-i"@ && a[2] == input
            &&& a[3] == "-vn"@
            &&& a[4] == "-codec:a"@ && a[5] == "libmp3lame"@
            &&& a[6] == "-qscale:a"@ && a[7] == "2"@
            &&& a[8] == output
        }),
{
}

/// The helper programs are installed afresh exactly when some argument is
/// `--reset` or the directory is empty or unreadable.
pub proof fn lemma_reinstall_conditions(args: Seq<String>)
    ensures
        has_reset_flag(args) <==> args.map_values(|a: String| a@).contains("--reset"@),
        is_fresh(LibraryDir::Empty),
        is_fresh(LibraryDir::Unreadable),
        !is_fresh(LibraryDir::HasEntries),
{
    let v = args.map_values(|a: String| a@);
    if has_reset_flag(args) {
        let i = choose|i: int| 0 <= i < args.len() && #[trigger] args[i]@ == "--reset"@;
        assert(v[i] == "--reset"@);
    }
    if v.contains("--reset"@) {
        let i = choose|i: int| 0 <= i < v.len() && v[i] == "--reset"@;
        assert(args[i]@ == "--reset"@);
    }
}

/// The poller sends `Empty` exactly when it found the player empty, then
/// waits ten seconds; otherwise it waits five.
pub proof fn lemma_poll_pauses()
    ensures
        poll_step_spec(true) == (PollStep { send_empty: true, pause_secs: 10 }),
        poll_step_spec(false) == (PollStep { send_empty: false, pause_secs: 5 }),
{
}

/// The QR image has a margin of four modules and eight pixels a module: each
/// pixel is black exactly when it lies on a dark module of the symbol.
pub proof fn lemma_qr_pixels(width: nat, dark: Seq<bool>, x: nat, y: nat)
    ensures
        QR_QUIET_ZONE == 4,
        QR_MODULE_PIXELS == 8,
        x < 32 || y < 32 || x >= (width + 4) * 8 || y >= (width + 4) * 8 ==> qr_pixel(
            width,
            dark,
            4,
            x,
            y,
        ) == 255,
        32 <= x < (width + 4) * 8 && 32 <= y < (width + 4) * 8 ==> qr_pixel(width, dark, 4, x, y) == if dark[(
        y / 8 - 4) * width + (x / 8 - 4)] {
            0u8
        } else {
            255u8
        },
{
}

} // verus!
