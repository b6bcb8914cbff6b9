use thumbflow::generator::{command_args, GenerateRequest};
use thumbflow::paths::{artifact_location, join_path, movies_dir, resolve_video_request, www_dir};

#[test]
fn join_path_inserts_separator() {
    assert_eq!(join_path("dir", "file.mp4").as_str(), "dir/file.mp4");
}

#[test]
fn artifact_location_appends_suffix() {
    assert_eq!(artifact_location("thumbs", "clip.mp4").as_str(), "thumbs/clip.mp4.jpg");
}

#[test]
fn artifact_location_is_deterministic() {
    let a = artifact_location("out", "a.mp4");
    let b = artifact_location("out", "a.mp4");
    assert_eq!(a.as_str(), b.as_str());
}

#[test]
fn www_dir_under_game_dir() {
    assert_eq!(www_dir("/game").as_str(), "/game/www");
}

#[test]
fn movies_dir_under_game_dir() {
    assert_eq!(movies_dir("/game").as_str(), "/game/www/movies");
}

#[test]
fn resolve_video_rejects_empty_name() {
    assert!(resolve_video_request("/game/www/movies", "").is_none());
}

#[test]
fn resolve_video_joins_path() {
    let r = resolve_video_request("/game/www/movies", "intro.mp4");
    assert_eq!(r.unwrap().as_str(), "/game/www/movies/intro.mp4");
}

#[test]
fn generator_args_follow_fixed_template() {
    let req = GenerateRequest {
        source: String::from("movies/a.mp4"),
        output: String::from("thumbs/a.mp4.jpg"),
    };
    let args = command_args(&req);
    let expect = vec![
        "-i",
        "movies/a.mp4",
        "-ss",
        "00:00:01",
        "-frames:v",
        "1",
        "-q:v",
        "2",
        "thumbs/a.mp4.jpg",
    ];
    assert_eq!(args.len(), expect.len());
    for (got, want) in args.iter().zip(expect.iter()) {
        assert_eq!(got.as_str(), *want);
    }
}
