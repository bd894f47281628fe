use std::path::Path;

use escrow::adapter::tools::{Resolution, Resolver, Tool};

/// Puts a file that this process may run into `dir`, with the mode of the
/// system shell.
fn put_executable(dir: &Path, name: &str) -> String {
    let mode = Path::new("/bin/sh").metadata().unwrap().permissions();
    let file = tempfile::Builder::new()
        .prefix(name)
        .suffix("")
        .rand_bytes(0)
        .permissions(mode)
        .disable_cleanup(true)
        .tempfile_in(dir)
        .unwrap();
    file.path().to_str().unwrap().to_owned()
}

fn dir_text(dir: &Path) -> String {
    dir.to_str().unwrap().to_owned()
}

#[test]
fn finds_a_tool_on_the_path() {
    let dir = tempfile::tempdir().unwrap();
    let expected = put_executable(dir.path(), "yt-dlp");

    let resolver = Resolver::new(Some(&dir_text(dir.path())), &[]);
    assert_eq!(resolver.resolve(Tool::YtDlp), Resolution::Found(expected));
}

#[test]
fn reports_what_it_could_not_find() {
    let dir = tempfile::tempdir().unwrap();
    put_executable(dir.path(), "yt-dlp");

    let resolver = Resolver::new(Some(&dir_text(dir.path())), &[]);
    assert_eq!(resolver.resolve(Tool::GalleryDl), Resolution::NotFound);
    assert_eq!(resolver.missing(), [Tool::GalleryDl, Tool::Ffmpeg, Tool::WhisperCli]);
}

#[test]
fn extra_paths_cover_what_the_path_misses() {
    let on_path = tempfile::tempdir().unwrap();
    let extra = tempfile::tempdir().unwrap();
    put_executable(on_path.path(), "yt-dlp");
    let rescued = put_executable(extra.path(), "gallery-dl");

    let resolver = Resolver::new(Some(&dir_text(on_path.path())), &[dir_text(extra.path())]);
    assert_eq!(resolver.resolve(Tool::GalleryDl), Resolution::Found(rescued));
}

#[test]
fn the_path_wins_over_extra_paths() {
    let on_path = tempfile::tempdir().unwrap();
    let extra = tempfile::tempdir().unwrap();
    let expected = put_executable(on_path.path(), "yt-dlp");
    put_executable(extra.path(), "yt-dlp");

    let resolver = Resolver::new(Some(&dir_text(on_path.path())), &[dir_text(extra.path())]);
    assert_eq!(resolver.resolve(Tool::YtDlp), Resolution::Found(expected));
}

#[test]
fn the_first_candidate_that_runs_is_found() {
    let candidates = vec!["/usr/bin/yt-dlp".to_owned(), "/opt/bin/yt-dlp".to_owned(), "/x/yt-dlp".to_owned()];
    assert_eq!(
        escrow::adapter::tools::first_runnable(&candidates, &vec![false, true, true]),
        Resolution::Found("/opt/bin/yt-dlp".to_owned())
    );
    assert_eq!(
        escrow::adapter::tools::first_runnable(&candidates, &vec![true, true, false]),
        Resolution::Found("/usr/bin/yt-dlp".to_owned())
    );
    assert_eq!(
        escrow::adapter::tools::first_runnable(&candidates, &vec![false, false, false]),
        Resolution::NotFound
    );
    assert_eq!(escrow::adapter::tools::first_runnable(&Vec::new(), &Vec::new()), Resolution::NotFound);
}

#[test]
fn a_file_is_found_at_its_own_path_when_it_is_there() {
    assert_eq!(Resolution::of_answer("/m.bin", true), Resolution::Found("/m.bin".to_owned()));
    assert_eq!(Resolution::of_answer("/m.bin", false), Resolution::NotFound);
}

#[test]
fn a_directory_is_not_a_model_file() {
    let dir = tempfile::tempdir().unwrap();
    assert_eq!(Resolution::of_file(&dir_text(dir.path())), Resolution::NotFound);
    let present = put_executable(dir.path(), "ggml.bin");
    assert_eq!(Resolution::of_file(&present), Resolution::Found(present.clone()));
}
