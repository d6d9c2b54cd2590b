use std::io::Write;

use susscope::archive::{member_text, read_log_file, read_member, ArchiveError};
use susscope::pipeline::{start_resolve, ResolveError, ResolvePhase, TranscodeGate};
use susscope::session::Session;

fn sample_archive() -> Vec<u8> {
    let cursor = std::io::Cursor::new(Vec::new());
    let mut writer = zip::ZipWriter::new(cursor);
    let options = zip::write::SimpleFileOptions::default();
    writer.start_file("output.suslog", options).unwrap();
    writer.write_all(b"hello session log").unwrap();
    writer.start_file("clip1.avi", options).unwrap();
    writer.write_all(&[1u8, 2, 3, 4, 255, 0, 42]).unwrap();
    writer.finish().unwrap().into_inner()
}

#[test]
fn read_member_returns_stored_bytes() {
    let archive = sample_archive();
    let log = read_member(archive.clone(), "output.suslog").unwrap();
    assert_eq!(log, b"hello session log".to_vec());
    let clip = read_member(archive, "clip1.avi").unwrap();
    assert_eq!(clip, vec![1u8, 2, 3, 4, 255, 0, 42]);
}

#[test]
fn read_member_reports_absent_name() {
    let archive = sample_archive();
    assert_eq!(read_member(archive, "missing.avi"), Err(ArchiveError::MemberNotFound));
}

#[test]
fn read_member_reports_unreadable_container() {
    assert_eq!(
        read_member(b"this is no archive".to_vec(), "clip1.avi"),
        Err(ArchiveError::Unreadable)
    );
}

#[test]
fn member_text_decodes_log() {
    let archive = sample_archive();
    assert_eq!(member_text(Some(archive), "output.suslog"), "hello session log");
}

#[test]
fn member_text_collapses_failures_to_empty() {
    assert_eq!(member_text(None, "output.suslog"), "");
    assert_eq!(member_text(Some(b"garbage".to_vec()), "output.suslog"), "");
    let archive = sample_archive();
    assert_eq!(member_text(Some(archive.clone()), "absent"), "");
    // A binary member is not UTF-8, so its text collapses too.
    assert_eq!(member_text(Some(archive), "clip1.avi"), "");
}

#[test]
fn log_text_reads_fixed_member() {
    let archive = sample_archive();
    assert_eq!(read_log_file(Some(archive)), "hello session log");
    assert_eq!(read_log_file(None), "");
}

fn active_session() -> Session {
    let mut s = Session::new();
    s.set_active_archive(String::from("/data/session.zip"));
    s
}

#[test]
fn resolve_requires_an_archive() {
    let s = Session::new();
    let r = start_resolve(&s, "clip1.avi", "/cache");
    assert!(matches!(r, Err(ResolveError::NoActiveArchive)));
}

#[test]
fn resolve_cache_hit_finishes_at_once() {
    let s = active_session();
    let mut m = start_resolve(&s, "clip1.avi", "/cache").unwrap();
    assert_eq!(m.current_phase(), ResolvePhase::ProbeCache);
    assert_eq!(m.final_path_arg(), "/cache/clip1.mp4");
    m.on_cache_probe(true);
    assert_eq!(m.current_phase(), ResolvePhase::Succeeded);
    assert_eq!(m.take_result(), Ok(String::from("/cache/clip1.mp4")));
}

#[test]
fn resolve_full_run_materializes() {
    let s = active_session();
    let mut m = start_resolve(&s, "videos/clip1.avi", "/cache").unwrap();
    m.on_cache_probe(false);
    assert_eq!(m.current_phase(), ResolvePhase::FetchMember);
    assert_eq!(m.member_arg(), "videos/clip1.avi");
    m.on_member_fetched(true);
    assert_eq!(m.current_phase(), ResolvePhase::StageWrite);
    assert_eq!(m.staged_path_arg(), "/cache/clip1.avi");
    m.on_stage_written(true);
    assert_eq!(m.current_phase(), ResolvePhase::RunTranscoder);
    let (input, output) = m.transcoder_args();
    assert_eq!(input, "/cache/clip1.avi");
    assert_eq!(output, "/cache/clip1.mp4.part");
    m.on_transcode_exit(true);
    assert_eq!(m.current_phase(), ResolvePhase::Promote);
    let (from, to) = m.promote_args();
    assert_eq!(from, "/cache/clip1.mp4.part");
    assert_eq!(to, "/cache/clip1.mp4");
    m.on_promoted(true);
    assert_eq!(m.take_result(), Ok(String::from("/cache/clip1.mp4")));
}

#[test]
fn resolve_second_call_returns_same_path() {
    let s = active_session();
    let mut first = start_resolve(&s, "clip1.avi", "/cache").unwrap();
    first.on_cache_probe(false);
    first.on_member_fetched(true);
    first.on_stage_written(true);
    first.on_transcode_exit(true);
    first.on_promoted(true);
    let first_path = first.take_result().unwrap();

    let mut second = start_resolve(&s, "clip1.avi", "/cache").unwrap();
    second.on_cache_probe(true);
    assert_eq!(second.take_result().unwrap(), first_path);
}

#[test]
fn resolve_missing_member_fails() {
    let s = active_session();
    let mut m = start_resolve(&s, "clip1.avi", "/cache").unwrap();
    m.on_cache_probe(false);
    m.on_member_fetched(false);
    assert_eq!(m.current_phase(), ResolvePhase::Failed);
    assert_eq!(m.take_result(), Err(ResolveError::MemberUnavailable));
}

#[test]
fn resolve_stage_write_failure() {
    let s = active_session();
    let mut m = start_resolve(&s, "clip1.avi", "/cache").unwrap();
    m.on_cache_probe(false);
    m.on_member_fetched(true);
    m.on_stage_written(false);
    assert_eq!(m.take_result(), Err(ResolveError::StageWriteFailed));
}

#[test]
fn resolve_failed_transcode_never_promotes() {
    let s = active_session();
    let mut m = start_resolve(&s, "clip1.avi", "/cache").unwrap();
    m.on_cache_probe(false);
    m.on_member_fetched(true);
    m.on_stage_written(true);
    m.on_transcode_exit(false);
    // The machine is terminal: promotion to the final path was never asked
    // for, and the result names the failed stage.
    assert_eq!(m.current_phase(), ResolvePhase::Failed);
    assert_eq!(m.take_result(), Err(ResolveError::TranscodeFailed));
}

#[test]
fn resolve_failed_promotion_reports_transcode() {
    let s = active_session();
    let mut m = start_resolve(&s, "clip1.avi", "/cache").unwrap();
    m.on_cache_probe(false);
    m.on_member_fetched(true);
    m.on_stage_written(true);
    m.on_transcode_exit(true);
    m.on_promoted(false);
    assert_eq!(m.take_result(), Err(ResolveError::TranscodeFailed));
}

#[test]
fn gate_serializes_one_key() {
    let mut g = TranscodeGate::new();
    let key = String::from("clip1");
    assert!(g.acquire(&key));
    assert!(!g.acquire(&key));
    assert!(!g.acquire(&key));
    let other = String::from("clip2");
    assert!(g.acquire(&other));
    g.release(&key);
    assert!(g.acquire(&key));
    assert!(!g.acquire(&other));
}

#[test]
fn gate_release_of_free_key_is_harmless() {
    let mut g = TranscodeGate::new();
    let key = String::from("clip1");
    g.release(&key);
    assert!(g.acquire(&key));
}
