use jukebox::{
    ffmpeg_args, ffmpeg_program, file_in_dir, mp3_file_name, mp3_file_path, raw_file_name, raw_file_path,
    server_url, u64_to_decimal,
};

#[test]
fn decimal_writing() {
    assert_eq!(u64_to_decimal(0), "0");
    assert_eq!(u64_to_decimal(7), "7");
    assert_eq!(u64_to_decimal(10), "10");
    assert_eq!(u64_to_decimal(1234567890), "1234567890");
    assert_eq!(u64_to_decimal(u64::MAX), u64::MAX.to_string());
}

#[test]
fn file_names_follow_counter() {
    assert_eq!(raw_file_name(0), "track_0_raw.webm");
    assert_eq!(raw_file_name(5), "track_5_raw.webm");
    assert_eq!(mp3_file_name(3), "track_3.mp3");
    assert_eq!(mp3_file_name(42), "track_42.mp3");
}

#[test]
fn converter_command_line() {
    let args = ffmpeg_args("output/track_1_raw.webm", "output/track_1.mp3");
    assert_eq!(
        args,
        vec![
            "-y",
            "-i",
            "output/track_1_raw.webm",
            "-vn",
            "-codec:a",
            "libmp3lame",
            "-qscale:a",
            "2",
            "output/track_1.mp3",
        ]
    );
}

#[test]
fn server_address() {
    assert_eq!(server_url("192.168.1.20", 8080), "http://192.168.1.20:8080");
    assert_eq!(server_url("10.0.0.1", 0), "http://10.0.0.1:0");
    assert_eq!(server_url("::1", 65535), "http://::1:65535");
}

#[test]
fn files_in_directories() {
    assert_eq!(file_in_dir("output", "track_0.mp3"), "output/track_0.mp3");
    assert_eq!(file_in_dir("output/", "track_0.mp3"), "output/track_0.mp3");
    assert_eq!(file_in_dir("", "track_0.mp3"), "track_0.mp3");
    assert_eq!(raw_file_path("output", 3), "output/track_3_raw.webm");
    assert_eq!(mp3_file_path("output", 3), "output/track_3.mp3");
    assert_eq!(ffmpeg_program("libs"), "libs/ffmpeg");
}
