# jukebox

A shared music queue: people on the local network open a web page, paste song
links, and a worker downloads the next few songs ahead of time, converts them
to MP3 and hands them to the audio player in the order they were requested.

- `src/` is the verified library:
  - `player.rs`: the request queue, the download queue, the song now playing
    and the file counter, as a state machine (`PlayerState`) whose steps take a
    command or the outcome of a download or of playback and say what to do
    next. `PlayerModel` is its mathematical model.
  - `laws.rs`: properties over several steps (bounded download queue with
    distinct files, the counter's cycle, first come first served, play order).
  - `files.rs`: the names and paths of the downloaded and converted files and
    the converter's command line.
  - `startup.rs`: whether helper programs are reinstalled or updated, and the
    player poller's rounds.
  - `page.rs`: a song's title from its web page (through scraper).
  - `server.rs`: the page's address and its QR symbol and image (through
    qrcode and image).
  - `decimal.rs`: decimal writing of integers.
- `app/` is the program: downloads (yt-dlp), conversion (ffmpeg), audio
  (rodio), the web server (axum) and the loops that drive the state machine.
