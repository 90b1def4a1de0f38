use piggytag::app::{CLIApp, PiggytagCmd};
use piggytag::cli::{EditArgs, ListArgs, ShowArgs};
use piggytag::error::{error_handler, PiggytagError};
use piggytag::structs::{AudioMetadata, Tag};
use piggytag::{base_name, default_separator, get_formatted_key_val, info_line, u64_to_string};

fn empty_tag() -> Tag {
    Tag {
        title: None,
        artist: None,
        album: None,
        track: None,
        year: None,
        comment: None,
        genre: None,
    }
}

fn tag_with_title(title: &str) -> Tag {
    Tag {
        title: Some(title.to_owned()),
        ..empty_tag()
    }
}

fn empty_metadata() -> AudioMetadata {
    AudioMetadata {
        filename: None,
        title: None,
        artist: None,
        album: None,
        track: None,
        year: None,
        comment: None,
        genre: None,
    }
}

#[test]
fn show_with_zero_tags_reports_no_tag_information() {
    let out = CLIApp::show_audio_tag_info("song.mp3", &vec![], 0);
    assert_eq!(out, "[info] file song.mp3: No tag information available.");
}

#[test]
fn list_with_zero_tags_reports_none_available() {
    let out = CLIApp::list_tags("song.mp3", &vec![]);
    assert_eq!(out, "[info] file song.mp3: no tag(s) available");
}

#[test]
fn list_with_one_tag_uses_singular_wording() {
    let out = CLIApp::list_tags("song.mp3", &vec![empty_tag()]);
    assert_eq!(out, "[info] file song.mp3: 1 tag available");
}

#[test]
fn list_with_several_tags_uses_plural_wording() {
    let out = CLIApp::list_tags("song.mp3", &vec![empty_tag(), empty_tag(), empty_tag()]);
    assert_eq!(out, "[info] file song.mp3: 3 tags available");
}

#[test]
fn list_with_twelve_tags_prints_two_digit_count() {
    let tags: Vec<Tag> = (0..12).map(|_| empty_tag()).collect();
    let out = CLIApp::list_tags("song.mp3", &tags);
    assert_eq!(out, "[info] file song.mp3: 12 tags available");
}

#[test]
fn show_out_of_range_index_matches_zero_tags_case() {
    let tags = vec![tag_with_title("Test")];
    let out_of_range = CLIApp::show_audio_tag_info("song.mp3", &tags, 5);
    let zero_tags = CLIApp::show_audio_tag_info("song.mp3", &vec![], 0);
    assert_eq!(out_of_range, zero_tags);
}

#[test]
fn show_single_tag_prints_eight_lines_with_placeholders() {
    let tags = vec![tag_with_title("Test")];
    let out = CLIApp::show_audio_tag_info("song.mp3", &tags, 0);
    assert_eq!(
        out,
        "Filename: song.mp3\n\
         Title: Test\n\
         Artist: unknown\n\
         Album: unknown\n\
         Track: unknown\n\
         Year: unknown\n\
         Comment: unknown\n\
         Genre: unknown\n"
    );
    assert_eq!(out.lines().count(), 8);
}

#[test]
fn show_strips_directories_from_the_file_name() {
    let tags = vec![empty_tag()];
    let out = CLIApp::show_audio_tag_info("music/album/song.mp3", &tags, 0);
    assert!(out.starts_with("Filename: song.mp3\n"));
}

#[test]
fn parse_returns_none_when_index_out_of_range() {
    let tags = vec![empty_tag()];
    assert!(AudioMetadata::parse_from_tagged_file("song.mp3", &tags, 1).is_none());
    assert!(AudioMetadata::parse_from_tagged_file("song.mp3", &vec![], 0).is_none());
}

#[test]
fn parse_copies_every_field_of_the_indexed_tag() {
    let tag = Tag {
        title: Some("T".to_owned()),
        artist: Some("A".to_owned()),
        album: Some("L".to_owned()),
        track: Some(3),
        year: Some(1999),
        comment: Some("C".to_owned()),
        genre: Some("G".to_owned()),
    };
    let m = AudioMetadata::parse_from_tagged_file("a/b.flac", &vec![empty_tag(), tag], 1).unwrap();
    assert_eq!(m.filename.as_deref(), Some("b.flac"));
    assert_eq!(m.title.as_deref(), Some("T"));
    assert_eq!(m.artist.as_deref(), Some("A"));
    assert_eq!(m.album.as_deref(), Some("L"));
    assert_eq!(m.track, Some(3));
    assert_eq!(m.year, Some(1999));
    assert_eq!(m.comment.as_deref(), Some("C"));
    assert_eq!(m.genre.as_deref(), Some("G"));
}

#[test]
fn partial_update_round_trip_keeps_prior_fields() {
    let mut tag = Tag {
        artist: Some("Bar".to_owned()),
        ..empty_tag()
    };
    let record = AudioMetadata {
        title: Some("Foo".to_owned()),
        ..empty_metadata()
    };
    record.mutate_tag(&mut tag);
    let back = AudioMetadata::parse_from_tagged_file("song.mp3", &vec![tag], 0).unwrap();
    assert_eq!(back.title.as_deref(), Some("Foo"));
    assert_eq!(back.artist.as_deref(), Some("Bar"));
    assert_eq!(back.album, None);
    assert_eq!(back.track, None);
    assert_eq!(back.year, None);
    assert_eq!(back.comment, None);
    assert_eq!(back.genre, None);
}

#[test]
fn mutate_tag_overwrites_only_supplied_fields() {
    let mut tag = Tag {
        title: Some("Old".to_owned()),
        track: Some(1),
        ..empty_tag()
    };
    let record = AudioMetadata {
        title: Some("New".to_owned()),
        year: Some(2001),
        ..empty_metadata()
    };
    CLIApp::mutate_tag(&record, &mut tag);
    assert_eq!(tag.title.as_deref(), Some("New"));
    assert_eq!(tag.track, Some(1));
    assert_eq!(tag.year, Some(2001));
    assert_eq!(tag.artist, None);
}

#[test]
fn edit_with_create_sets_exactly_the_supplied_fields() {
    let pre_existing = vec![Tag {
        artist: Some("Someone".to_owned()),
        ..empty_tag()
    }];
    let record = AudioMetadata {
        title: Some("Foo".to_owned()),
        year: Some(2020),
        ..empty_metadata()
    };
    let tag = CLIApp::edit_tag("song.mp3", &pre_existing, true, 1, &record).unwrap();
    assert_eq!(tag.title.as_deref(), Some("Foo"));
    assert_eq!(tag.year, Some(2020));
    assert_eq!(tag.artist, None);
    assert_eq!(tag.album, None);
    assert_eq!(tag.track, None);
    assert_eq!(tag.comment, None);
    assert_eq!(tag.genre, None);
}

#[test]
fn edit_in_place_updates_the_indexed_tag() {
    let tags = vec![
        tag_with_title("First"),
        Tag {
            artist: Some("Bar".to_owned()),
            ..empty_tag()
        },
    ];
    let record = AudioMetadata {
        title: Some("Foo".to_owned()),
        ..empty_metadata()
    };
    let tag = CLIApp::edit_tag("song.mp3", &tags, false, 2, &record).unwrap();
    assert_eq!(tag.title.as_deref(), Some("Foo"));
    assert_eq!(tag.artist.as_deref(), Some("Bar"));
}

#[test]
fn edit_with_out_of_range_index_names_the_file() {
    let record = AudioMetadata {
        title: Some("Foo".to_owned()),
        ..empty_metadata()
    };
    let err = CLIApp::edit_tag("dir/song.mp3", &vec![empty_tag()], false, 2, &record).unwrap_err();
    match err {
        PiggytagError::Msg(msg) => {
            assert_eq!(msg, "file song.mp3: no tag available at index 2");
        }
        _ => panic!("expected a message error"),
    }
}

#[test]
fn show_over_many_files_separates_each_block() {
    let args = ShowArgs {
        filename: vec!["a.mp3".to_owned(), "b.mp3".to_owned(), "c.mp3".to_owned()],
        tag_idx: 1,
    };
    let collections = vec![vec![tag_with_title("A")], vec![], vec![tag_with_title("C")]];
    let out = CLIApp::show_subcommand_output(&args, &collections);
    assert_eq!(out.len(), 5);
    assert_eq!(out[1], "----");
    assert_eq!(out[3], "----");
    assert!(out[0].starts_with("Filename: a.mp3\nTitle: A\n"));
    assert_eq!(out[2], "[info] file b.mp3: No tag information available.");
    assert!(out[4].starts_with("Filename: c.mp3\nTitle: C\n"));
    let separators = out.iter().filter(|s| *s == "----").count();
    assert_eq!(separators, args.filename.len() - 1);
}

#[test]
fn show_over_one_file_prints_no_separator() {
    let args = ShowArgs {
        filename: vec!["a.mp3".to_owned()],
        tag_idx: 1,
    };
    let out = CLIApp::show_subcommand_output(&args, &vec![vec![]]);
    assert_eq!(out.len(), 1);
    assert!(!out.contains(&"----".to_owned()));
}

#[test]
fn list_over_many_files_prints_one_line_each() {
    let args = ListArgs {
        filename: vec!["a.mp3".to_owned(), "b.mp3".to_owned()],
    };
    let collections = vec![vec![], vec![empty_tag()]];
    let out = CLIApp::list_subcommand_output(&args, &collections);
    assert_eq!(
        out,
        vec![
            "[info] file a.mp3: no tag(s) available".to_owned(),
            "[info] file b.mp3: 1 tag available".to_owned(),
        ]
    );
}

#[test]
fn metadata_from_edit_args_carries_exactly_the_flags() {
    let args = EditArgs {
        filename: vec!["x.mp3".to_owned()],
        new_tag: false,
        tag_idx: 1,
        title: Some("T".to_owned()),
        artist: None,
        album: Some("L".to_owned()),
        track: Some(9),
        year: None,
        comment: None,
        genre: Some("G".to_owned()),
    };
    let m = CLIApp::metadata_from_edit_args(&args, &args.filename[0]);
    assert_eq!(m.filename.as_deref(), Some("x.mp3"));
    assert_eq!(m.title.as_deref(), Some("T"));
    assert_eq!(m.artist, None);
    assert_eq!(m.album.as_deref(), Some("L"));
    assert_eq!(m.track, Some(9));
    assert_eq!(m.year, None);
    assert_eq!(m.comment, None);
    assert_eq!(m.genre.as_deref(), Some("G"));
}

#[test]
fn edit_plan_covers_every_file_in_order() {
    let args = EditArgs {
        filename: vec!["a.mp3".to_owned(), "b.mp3".to_owned()],
        new_tag: false,
        tag_idx: 1,
        title: Some("T".to_owned()),
        artist: None,
        album: None,
        track: None,
        year: None,
        comment: None,
        genre: None,
    };
    let collections = vec![
        vec![Tag {
            artist: Some("A1".to_owned()),
            ..empty_tag()
        }],
        vec![Tag {
            artist: Some("A2".to_owned()),
            ..empty_tag()
        }],
    ];
    let tags = CLIApp::edit_subcommand_plan(&args, &collections).unwrap();
    assert_eq!(tags.len(), 2);
    assert_eq!(tags[0].title.as_deref(), Some("T"));
    assert_eq!(tags[0].artist.as_deref(), Some("A1"));
    assert_eq!(tags[1].title.as_deref(), Some("T"));
    assert_eq!(tags[1].artist.as_deref(), Some("A2"));
}

#[test]
fn edit_plan_stops_at_the_first_file_without_the_tag() {
    let args = EditArgs {
        filename: vec!["a.mp3".to_owned(), "b.mp3".to_owned(), "c.mp3".to_owned()],
        new_tag: false,
        tag_idx: 2,
        title: Some("T".to_owned()),
        artist: None,
        album: None,
        track: None,
        year: None,
        comment: None,
        genre: None,
    };
    let collections = vec![
        vec![empty_tag(), empty_tag()],
        vec![empty_tag()],
        vec![],
    ];
    let err = CLIApp::edit_subcommand_plan(&args, &collections).unwrap_err();
    match err {
        PiggytagError::Msg(msg) => {
            assert_eq!(msg, "file b.mp3: no tag available at index 2");
        }
        _ => panic!("expected a message error"),
    }
}

#[test]
fn lofty_errors_carry_the_display_name_of_the_file() {
    let err = piggytag::error::lofty_file_error("music/song.mp3", "bad header".to_owned());
    match err {
        PiggytagError::LoftyError { file_name, err } => {
            assert_eq!(file_name, "song.mp3");
            assert_eq!(err, "bad header");
        }
        _ => panic!("expected a tag-format error"),
    }
}

#[test]
fn error_handler_is_silent_on_a_broken_pipe() {
    let report = error_handler(&PiggytagError::Io {
        broken_pipe: true,
        message: "broken pipe".to_owned(),
    });
    assert_eq!(report.exit_code, 1);
    assert!(report.message.is_none());
}

#[test]
fn error_handler_reports_io_failures() {
    let report = error_handler(&PiggytagError::Io {
        broken_pipe: false,
        message: "permission denied".to_owned(),
    });
    assert_eq!(report.exit_code, 1);
    assert_eq!(report.message.as_deref(), Some("[I/O error] permission denied"));
}

#[test]
fn error_handler_reports_tag_failures_with_the_file_name() {
    let report = error_handler(&PiggytagError::LoftyError {
        file_name: "song.mp3".to_owned(),
        err: "unknown format".to_owned(),
    });
    assert_eq!(report.exit_code, 1);
    assert_eq!(
        report.message.as_deref(),
        Some("[error] on file song.mp3: unknown format")
    );
}

#[test]
fn error_handler_reports_plain_messages() {
    let report = error_handler(&PiggytagError::from("something failed".to_owned()));
    assert_eq!(report.exit_code, 1);
    assert_eq!(report.message.as_deref(), Some("[error] something failed"));
}

#[test]
fn plain_messages_convert_from_borrowed_text_too() {
    let report = error_handler(&PiggytagError::from("bad input"));
    assert_eq!(report.message.as_deref(), Some("[error] bad input"));
}

#[test]
fn base_name_takes_what_follows_the_last_slash() {
    assert_eq!(base_name("a/b/c.mp3"), "c.mp3");
    assert_eq!(base_name("song.mp3"), "song.mp3");
    assert_eq!(base_name("dir/"), "unknown");
    assert_eq!(base_name(""), "unknown");
}

#[test]
fn numbers_render_in_decimal() {
    assert_eq!(u64_to_string(0), "0");
    assert_eq!(u64_to_string(7), "7");
    assert_eq!(u64_to_string(42), "42");
    assert_eq!(u64_to_string(1234567890), "1234567890");
    assert_eq!(u64_to_string(u64::MAX), "18446744073709551615");
}

#[test]
fn key_val_lines_show_the_placeholder_for_absent_values() {
    assert_eq!(get_formatted_key_val("Title", Some("Test")), "Title: Test\n");
    assert_eq!(get_formatted_key_val("Title", None), "Title: unknown\n");
}

#[test]
fn formatted_renders_numbers_and_all_fields() {
    let m = AudioMetadata {
        filename: Some("song.mp3".to_owned()),
        title: Some("T".to_owned()),
        artist: Some("A".to_owned()),
        album: Some("L".to_owned()),
        track: Some(12),
        year: Some(2024),
        comment: Some("C".to_owned()),
        genre: Some("G".to_owned()),
    };
    assert_eq!(
        m.formatted(),
        "Filename: song.mp3\nTitle: T\nArtist: A\nAlbum: L\nTrack: 12\nYear: 2024\nComment: C\nGenre: G\n"
    );
}

#[test]
fn new_and_default_tags_have_no_field_set() {
    for tag in [Tag::new(), Tag::default()] {
        assert_eq!(tag.title, None);
        assert_eq!(tag.artist, None);
        assert_eq!(tag.album, None);
        assert_eq!(tag.track, None);
        assert_eq!(tag.year, None);
        assert_eq!(tag.comment, None);
        assert_eq!(tag.genre, None);
    }
}

#[test]
fn cloned_tags_keep_every_field() {
    let tag = Tag {
        title: Some("T".to_owned()),
        track: Some(5),
        ..empty_tag()
    };
    let copy = tag.clone();
    assert_eq!(copy.title.as_deref(), Some("T"));
    assert_eq!(copy.track, Some(5));
    assert_eq!(copy.artist, None);
}

#[test]
fn info_lines_and_separator_match_the_terminal_format() {
    assert_eq!(info_line("hello"), "[info] hello");
    assert_eq!(default_separator(), "----");
}
