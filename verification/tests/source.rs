use reaper_rs::error::ReaperError;
use reaper_rs::guid::Guid;
use reaper_rs::host::SourceState;
use reaper_rs::low_level::{FunctionTable, PcmSource, ReaProject};
use reaper_rs::project::Project;
use reaper_rs::reaper::Reaper;
use reaper_rs::request::HostRequest;
use reaper_rs::source::{newline_to_nul, nul_to_newline, BorrowedSource, OwnedSource, ReaperSource};

fn table_lacking(missing: &'static str) -> FunctionTable {
    FunctionTable::with_all_functions_loaded(&move |name: &'static str| -> isize {
        if name == missing {
            0
        } else {
            0x1000
        }
    })
}

fn source(address: usize, parent: Option<usize>, state: &[u8]) -> SourceState {
    SourceState {
        source: PcmSource { address },
        project: Some(ReaProject { address: 0x100 }),
        parent: parent.map(|address| PcmSource { address }),
        file_name: Some("loop.wav".to_string()),
        source_type: "WAVE".to_string(),
        state: state.to_vec(),
        pooled_midi_id: None,
    }
}

fn host_with(sources: Vec<SourceState>) -> Reaper {
    let mut reaper = Reaper::new(table_lacking(""), ReaProject { address: 0x100 }, vec![]);
    reaper.sources = sources;
    reaper
}

#[test]
fn nul_and_newline_substitution() {
    assert_eq!(nul_to_newline(b"<SOURCE WAVE\0FILE \"a.wav\"\0>\0"), b"<SOURCE WAVE\nFILE \"a.wav\"\n>\n".to_vec());
    assert_eq!(newline_to_nul(b"<SOURCE WAVE\nFILE \"a.wav\"\n>\n"), b"<SOURCE WAVE\0FILE \"a.wav\"\0>\0".to_vec());
    assert_eq!(nul_to_newline(b""), Vec::<u8>::new());
    assert_eq!(newline_to_nul(b"\n\n"), vec![0u8, 0u8]);
}

#[test]
fn text_with_newlines_survives_import_and_export() {
    let text = "<SOURCE MIDI\nHASDATA 1 960 QN\nE 0 90 3c 60\n>".to_string();
    let reaper = host_with(vec![source(0x10, None, b"old")]);
    let borrowed = ReaperSource::new(PcmSource { address: 0x10 }).as_ref(&reaper).unwrap();
    let request = borrowed.set_state_chunk(&reaper, text.clone()).unwrap();
    let buffer = match request {
        HostRequest::LoadSourceState { source, buffer } => {
            assert_eq!(source, PcmSource { address: 0x10 });
            buffer
        }
        other => panic!("unexpected request {:?}", other),
    };
    assert!(!buffer.contains(&b'\n'));
    // The host loads the buffer; the next look at the host shows it.
    let after = host_with(vec![source(0x10, None, &buffer)]);
    assert_eq!(borrowed.state_chunk(&after), Ok(text.into_bytes()));
}

#[test]
fn state_with_embedded_newline_does_not_round_trip() {
    let state = b"a\nb\0c".to_vec();
    let text = nul_to_newline(&state);
    assert_eq!(text, b"a\nb\nc".to_vec());
    assert_ne!(newline_to_nul(&text), state);
}

#[test]
fn copy_exports_the_same_state_and_loading_into_it_leaves_the_original() {
    let reaper = host_with(vec![source(0x10, None, b"A\0B")]);
    let original = ReaperSource::new(PcmSource { address: 0x10 }).as_ref(&reaper).unwrap();
    assert_eq!(original.duplicate_request(&reaper), Ok(HostRequest::DuplicateSource { source: PcmSource { address: 0x10 } }));
    let owned = original.duplicate(Some(PcmSource { address: 0x20 })).unwrap();
    let copy = owned.as_ref();
    let after_copy = host_with(vec![source(0x10, None, b"A\0B"), source(0x20, None, b"A\0B")]);
    assert_eq!(copy.state_chunk(&after_copy), original.state_chunk(&after_copy));
    assert_eq!(copy.state_chunk(&after_copy), Ok(b"A\nB".to_vec()));
    let request = copy.set_state_chunk(&after_copy, "X\nY".to_string()).unwrap();
    assert_eq!(request, HostRequest::LoadSourceState { source: PcmSource { address: 0x20 }, buffer: b"X\0Y".to_vec() });
    let after_load = host_with(vec![source(0x10, None, b"A\0B"), source(0x20, None, b"X\0Y")]);
    assert_eq!(original.state_chunk(&after_load), Ok(b"A\nB".to_vec()));
    assert_eq!(copy.state_chunk(&after_load), Ok(b"X\nY".to_vec()));
    assert_eq!(owned.release(), HostRequest::ReleaseSource { source: PcmSource { address: 0x20 } });
}

#[test]
fn duplicate_fails_when_the_host_makes_no_copy() {
    let borrowed = BorrowedSource { raw: PcmSource { address: 0x10 } };
    assert_eq!(borrowed.duplicate(None).err(), Some(ReaperError::DuplicationUnsupported));
    assert_eq!(borrowed.duplicate(Some(PcmSource { address: 0 })).err(), Some(ReaperError::DuplicationUnsupported));
    assert_eq!(borrowed.duplicate(Some(PcmSource { address: 0x10 })).err(), Some(ReaperError::DuplicationUnsupported));
    assert_eq!(borrowed.duplicate(Some(PcmSource { address: 0x11 })).unwrap().into_raw(), PcmSource { address: 0x11 });
}

#[test]
fn dead_source_is_not_handed_on() {
    let reaper = host_with(vec![source(0x10, None, b"s")]);
    let live = ReaperSource::new(PcmSource { address: 0x10 });
    let dead = ReaperSource::new(PcmSource { address: 0x30 });
    assert_eq!(live.raw(), PcmSource { address: 0x10 });
    assert_eq!(live.is_valid(&reaper), Ok(true));
    assert_eq!(dead.is_valid(&reaper), Ok(false));
    assert_eq!(dead.as_ref(&reaper), Err(ReaperError::UseAfterInvalidation));
    assert_eq!(live.is_valid_in_project(&reaper, Project::new(ReaProject { address: 0x100 })), Ok(true));
    assert_eq!(live.is_valid_in_project(&reaper, Project::new(ReaProject { address: 0x200 })), Ok(false));
    let stale = BorrowedSource { raw: PcmSource { address: 0x30 } };
    assert_eq!(stale.state_chunk(&reaper), Err(ReaperError::UseAfterInvalidation));
    assert_eq!(stale.set_state_chunk(&reaper, "x".to_string()), Err(ReaperError::UseAfterInvalidation));
    assert_eq!(stale.file_name(&reaper), Err(ReaperError::UseAfterInvalidation));
    assert_eq!(stale.duplicate_request(&reaper), Err(ReaperError::UseAfterInvalidation));
}

#[test]
fn source_checks_fail_without_validation_entry_point() {
    let mut reaper = Reaper::new(table_lacking("ValidatePtr2"), ReaProject { address: 0x100 }, vec![]);
    reaper.sources = vec![source(0x10, None, b"s")];
    let handle = ReaperSource::new(PcmSource { address: 0x10 });
    assert_eq!(handle.is_valid(&reaper), Err(ReaperError::MissingHostFunction));
    assert_eq!(handle.as_ref(&reaper), Err(ReaperError::MissingHostFunction));
    assert_eq!(BorrowedSource { raw: handle.raw() }.source_type(&reaper), Err(ReaperError::MissingHostFunction));
}

#[test]
fn accessors_read_the_host() {
    let reaper = host_with(vec![source(0x10, Some(0x20), b"s"), source(0x20, Some(0x30), b"t"), source(0x30, None, b"u")]);
    let borrowed = BorrowedSource { raw: PcmSource { address: 0x10 } };
    assert_eq!(borrowed.file_name(&reaper), Ok(Some("loop.wav".to_string())));
    assert_eq!(borrowed.source_type(&reaper), Ok("WAVE".to_string()));
    assert_eq!(borrowed.parent_source(&reaper), Ok(Some(PcmSource { address: 0x20 })));
    assert_eq!(borrowed.root_source(&reaper), Ok(PcmSource { address: 0x30 }));
    let root = BorrowedSource { raw: PcmSource { address: 0x30 } };
    assert_eq!(root.parent_source(&reaper), Ok(None));
    assert_eq!(root.root_source(&reaper), Ok(PcmSource { address: 0x30 }));
}

#[test]
fn root_source_stops_in_a_circle_and_at_an_unknown_parent() {
    let circle = host_with(vec![source(0x10, Some(0x20), b""), source(0x20, Some(0x10), b"")]);
    let borrowed = BorrowedSource { raw: PcmSource { address: 0x10 } };
    // Two sources, two links: back at the start.
    assert_eq!(borrowed.root_source(&circle), Ok(PcmSource { address: 0x10 }));
    let dangling = host_with(vec![source(0x10, Some(0x99), b"")]);
    assert_eq!(borrowed.root_source(&dangling), Ok(PcmSource { address: 0x99 }));
}

#[test]
fn pooled_midi_and_export_requests() {
    let mut pooled = source(0x10, None, b"");
    pooled.pooled_midi_id = Some(Guid::new(55));
    let reaper = host_with(vec![pooled, source(0x20, None, b"")]);
    assert_eq!(BorrowedSource { raw: PcmSource { address: 0x10 } }.pooled_midi_id(&reaper), Ok(Guid::new(55)));
    assert_eq!(
        BorrowedSource { raw: PcmSource { address: 0x20 } }.pooled_midi_id(&reaper),
        Err(ReaperError::Unavailable)
    );
    assert_eq!(
        BorrowedSource { raw: PcmSource { address: 0x20 } }.export_to_file(&reaper, "out.mid"),
        Ok(HostRequest::ExportSourceToFile { source: PcmSource { address: 0x20 }, file: "out.mid".to_string() })
    );
}

#[test]
fn owned_source_from_file_reply() {
    assert_eq!(OwnedSource::from_file(None).err(), Some("couldn't create PCM source"));
    let owned = OwnedSource::from_file(Some(PcmSource { address: 0x40 })).unwrap();
    assert_eq!(owned.as_ref().raw, PcmSource { address: 0x40 });
    assert_eq!(OwnedSource::new(PcmSource { address: 0x41 }).into_raw(), PcmSource { address: 0x41 });
}
