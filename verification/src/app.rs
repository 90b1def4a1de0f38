use vstd::prelude::*;

use crate::cli::{edit_args_wf, list_args_wf, show_args_wf, EditArgs, ListArgs, ShowArgs};
use crate::error::PiggytagError;
use crate::structs::{
    apply_spec, empty_tag_view, formatted_spec, read_spec, AudioMetadata, AudioMetadataView, Tag,
};
use crate::{
    base_name, base_name_spec, clone_opt_string, dec_seq, default_separator, info_line,
    info_line_spec, opt_string_view, separator_spec, u64_to_string,
};

verus! {

/// The command-line application: one type carrying the per-file operations
/// and the whole-invocation planning.
pub struct CLIApp;

/// The informational block shown when a file offers no tag at the requested
/// index.
pub open spec fn no_tag_message_spec(file_path: Seq<char>) -> Seq<char> {
    info_line_spec("file "@ + base_name_spec(file_path) + ": No tag information available."@)
}

/// What the Show operation prints for one file: the indexed tag's record, or
/// the informational message when no tag stands at that index.
pub open spec fn show_block_spec(file_path: Seq<char>, tags: Seq<Tag>, idx: int) -> Seq<char> {
    if 0 <= idx < tags.len() {
        formatted_spec(read_spec(base_name_spec(file_path), tags[idx]@))
    } else {
        no_tag_message_spec(file_path)
    }
}

/// What the List operation prints for one file, with grammatically correct
/// wording for none, one, and several tags.
pub open spec fn list_message_spec(file_path: Seq<char>, count: nat) -> Seq<char> {
    if count == 0 {
        info_line_spec("file "@ + base_name_spec(file_path) + ": no tag(s) available"@)
    } else if count == 1 {
        info_line_spec("file "@ + base_name_spec(file_path) + ": 1 tag available"@)
    } else {
        info_line_spec(
            "file "@ + base_name_spec(file_path) + ": "@ + dec_seq(count) + " tags available"@,
        )
    }
}

/// The error message of an Edit that asked for a tag index the file does not
/// have.
pub open spec fn no_tag_at_index_message_spec(file_path: Seq<char>, idx: nat) -> Seq<char> {
    "file "@ + base_name_spec(file_path) + ": no tag available at index "@ + dec_seq(idx)
}

/// The record an Edit invocation writes onto one file's tag: exactly the
/// fields given on the command line, plus the file's own name.
pub open spec fn edit_record_spec(args: EditArgs, filename: Seq<char>) -> AudioMetadataView {
    AudioMetadataView {
        filename: Some(filename),
        title: opt_string_view(args.title),
        artist: opt_string_view(args.artist),
        album: opt_string_view(args.album),
        track: args.track,
        year: args.year,
        comment: opt_string_view(args.comment),
        genre: opt_string_view(args.genre),
    }
}

/// Whether an Edit over these files can succeed: a brand-new tag always can;
/// an in-place edit can exactly when every file has a tag at the requested
/// index.
pub open spec fn edit_plan_ok(args: EditArgs, collections: Seq<Vec<Tag>>) -> bool {
    args.new_tag || (forall|i: int|
        0 <= i < collections.len() ==> args.tag_idx - 1 < (#[trigger] collections[i])@.len())
}

/// How many entries of `s` read exactly `t`.
pub open spec fn count_eq_seq(s: Seq<String>, t: Seq<char>) -> nat
    decreases s.len(),
{
    if s.len() == 0 {
        0
    } else {
        count_eq_seq(s.drop_last(), t) + (if s.last()@ == t {
            1nat
        } else {
            0nat
        })
    }
}

/// The per-file operations of the command-line tool.
pub trait PiggytagCmd {
    /// Show audio tag information (pretty-print) for one file.
    fn show_audio_tag_info(file_path: &str, tags: &Vec<Tag>, tag_idx: usize) -> (r: String)
        ensures
            r@ == show_block_spec(file_path@, tags@, tag_idx as int),
    ;

    /// List how many tags one file carries (pretty-print).
    fn list_tags(file_path: &str, tags: &Vec<Tag>) -> (r: String)
        ensures
            r@ == list_message_spec(file_path@, tags@.len()),
    ;

    /// Write the fields a record carries onto a tag, leaving its other fields
    /// untouched.
    fn mutate_tag(metadata: &AudioMetadata, tag: &mut Tag)
        ensures
            final(tag)@ == apply_spec(metadata@, old(tag)@),
    ;
}

impl PiggytagCmd for CLIApp {
    fn show_audio_tag_info(file_path: &str, tags: &Vec<Tag>, tag_idx: usize) -> (r: String) {
        match AudioMetadata::parse_from_tagged_file(file_path, tags, tag_idx) {
            Some(metadata) => {
                let out = metadata.formatted();
                proof {
                    assert(out@ =~= show_block_spec(file_path@, tags@, tag_idx as int));
                }
                out
            },
            None => {
                let name = base_name(file_path);
                let mut msg = String::from_str("file ");
                msg.append(name.as_str());
                msg.append(": No tag information available.");
                let out = info_line(msg.as_str());
                proof {
                    assert(out@ =~= show_block_spec(file_path@, tags@, tag_idx as int));
                }
                out
            },
        }
    }

    fn list_tags(file_path: &str, tags: &Vec<Tag>) -> (r: String) {
        let count = tags.len();
        let name = base_name(file_path);
        let mut msg = String::from_str("file ");
        msg.append(name.as_str());
        if count == 0 {
            msg.append(": no tag(s) available");
        } else if count == 1 {
            msg.append(": 1 tag available");
        } else {
            msg.append(": ");
            msg.append(u64_to_string(count as u64).as_str());
            msg.append(" tags available");
        }
        let out = info_line(msg.as_str());
        proof {
            assert(out@ =~= list_message_spec(file_path@, tags@.len()));
        }
        out
    }

    fn mutate_tag(metadata: &AudioMetadata, tag: &mut Tag) {
        metadata.mutate_tag(tag);
    }
}

/// Every show block is longer than the separator line, so no block can be
/// mistaken for one.
proof fn lemma_show_block_ne_separator(file_path: Seq<char>, tags: Seq<Tag>, idx: int)
    ensures
        show_block_spec(file_path, tags, idx) != separator_spec(),
{
    reveal_strlit("----");
    if 0 <= idx < tags.len() {
        reveal_strlit("Filename");
        reveal_strlit(": ");
        reveal_strlit("\n");
        assert(show_block_spec(file_path, tags, idx).len() > 4);
    } else {
        reveal_strlit("[info] ");
        reveal_strlit("file ");
        reveal_strlit(": No tag information available.");
        assert(show_block_spec(file_path, tags, idx).len() > 4);
    }
}

/// In a sequence that alternates non-`t` entries with `t` entries, starting
/// and ending with a non-`t` entry, exactly the entries at odd positions read
/// `t`.
proof fn lemma_count_alternating(s: Seq<String>, t: Seq<char>, n: int)
    requires
        n >= 1,
        s.len() == 2 * n - 1,
        forall|k: int| 0 <= k < s.len() && k % 2 == 0 ==> #[trigger] s[k]@ != t,
        forall|k: int| 0 <= k < s.len() && k % 2 == 1 ==> #[trigger] s[k]@ == t,
    ensures
        count_eq_seq(s, t) == n - 1,
    decreases n,
{
    if n == 1 {
        assert(s[0]@ != t);
        assert(count_eq_seq(s.drop_last(), t) == 0);
    } else {
        let s1 = s.drop_last();
        let s2 = s1.drop_last();
        assert(s.last() == s[2 * n - 2] && (2 * n - 2) % 2 == 0);
        assert(s1.last() == s[2 * n - 3] && (2 * n - 3) % 2 == 1);
        assert forall|k: int| 0 <= k < s2.len() && k % 2 == 0 implies #[trigger] s2[k]@ != t by {
            assert(s2[k] == s[k]);
        }
        assert forall|k: int| 0 <= k < s2.len() && k % 2 == 1 implies #[trigger] s2[k]@ == t by {
            assert(s2[k] == s[k]);
        }
        lemma_count_alternating(s2, t, n - 1);
        assert(s.last()@ != t);
        assert(s1.last()@ == t);
        assert(count_eq_seq(s, t) == count_eq_seq(s1, t));
        assert(count_eq_seq(s1, t) == count_eq_seq(s2, t) + 1);
    }
}

impl CLIApp {
    /// The whole output of a Show over several files: each file's block, with
    /// one separator between every two neighbouring blocks — so exactly one
    /// separator fewer than there are files.
    pub fn show_subcommand_output(args: &ShowArgs, collections: &Vec<Vec<Tag>>) -> (r: Vec<String>)
        requires
            show_args_wf(*args),
            collections@.len() == args.filename@.len(),
        ensures
            r@.len() == 2 * args.filename@.len() - 1,
            forall|k: int|
                0 <= k < r@.len() && k % 2 == 0 ==> #[trigger] r@[k]@ == show_block_spec(
                    args.filename@[k / 2]@,
                    collections@[k / 2]@,
                    args.tag_idx - 1,
                ),
            forall|k: int| 0 <= k < r@.len() && k % 2 == 1 ==> #[trigger] r@[k]@ == separator_spec(),
            count_eq_seq(r@, separator_spec()) == args.filename@.len() - 1,
    {
        let n = args.filename.len();
        let mut out: Vec<String> = Vec::new();
        let mut i: usize = 0;
        while i < n
            invariant
                show_args_wf(*args),
                collections@.len() == args.filename@.len(),
                n == args.filename@.len(),
                i <= n,
                out@.len() == (if i == n {
                    2 * n - 1
                } else {
                    2 * i
                }),
                forall|k: int|
                    0 <= k < out@.len() && k % 2 == 0 ==> #[trigger] out@[k]@ == show_block_spec(
                        args.filename@[k / 2]@,
                        collections@[k / 2]@,
                        args.tag_idx - 1,
                    ),
                forall|k: int|
                    0 <= k < out@.len() && k % 2 == 1 ==> #[trigger] out@[k]@ == separator_spec(),
            decreases n - i,
        {
            let block = CLIApp::show_audio_tag_info(
                args.filename[i].as_str(),
                &collections[i],
                args.tag_idx - 1,
            );
            out.push(block);
            if i + 1 < n {
                out.push(default_separator());
            }
            i = i + 1;
        }
        proof {
            assert forall|k: int| 0 <= k < out@.len() && k % 2 == 0 implies #[trigger] out@[k]@
                != separator_spec() by {
                lemma_show_block_ne_separator(
                    args.filename@[k / 2]@,
                    collections@[k / 2]@,
                    args.tag_idx - 1,
                );
            }
            lemma_count_alternating(out@, separator_spec(), n as int);
        }
        out
    }

    /// The whole output of a List over several files: one count line per
    /// file, in the order the files were given.
    pub fn list_subcommand_output(args: &ListArgs, collections: &Vec<Vec<Tag>>) -> (r: Vec<String>)
        requires
            list_args_wf(*args),
            collections@.len() == args.filename@.len(),
        ensures
            r@.len() == args.filename@.len(),
            forall|i: int|
                0 <= i < r@.len() ==> #[trigger] r@[i]@ == list_message_spec(
                    args.filename@[i]@,
                    collections@[i]@.len(),
                ),
    {
        let n = args.filename.len();
        let mut out: Vec<String> = Vec::new();
        let mut i: usize = 0;
        while i < n
            invariant
                collections@.len() == args.filename@.len(),
                n == args.filename@.len(),
                i <= n,
                out@.len() == i,
                forall|j: int|
                    0 <= j < i ==> #[trigger] out@[j]@ == list_message_spec(
                        args.filename@[j]@,
                        collections@[j]@.len(),
                    ),
            decreases n - i,
        {
            let line = CLIApp::list_tags(args.filename[i].as_str(), &collections[i]);
            out.push(line);
            i = i + 1;
        }
        out
    }

    /// The record one Edit invocation writes onto one file's tag: exactly the
    /// fields given on the command line, plus the file's own name.
    pub fn metadata_from_edit_args(args: &EditArgs, filename: &String) -> (m: AudioMetadata)
        ensures
            m@ == edit_record_spec(*args, filename@),
    {
        AudioMetadata {
            filename: Some(filename.clone()),
            title: clone_opt_string(&args.title),
            artist: clone_opt_string(&args.artist),
            album: clone_opt_string(&args.album),
            track: args.track,
            year: args.year,
            comment: clone_opt_string(&args.comment),
            genre: clone_opt_string(&args.genre),
        }
    }

    /// The tag an Edit writes back for one file. With `new_tag` set the
    /// record goes onto a brand-new tag, so exactly its own fields are set;
    /// otherwise it goes onto the tag at the given index, counted from 1, and
    /// an index the file does not have is an error naming the file.
    pub fn edit_tag(
        file_path: &str,
        tags: &Vec<Tag>,
        new_tag: bool,
        tag_idx: usize,
        metadata: &AudioMetadata,
    ) -> (r: Result<Tag, PiggytagError>)
        requires
            tag_idx >= 1,
        ensures
            new_tag ==> (r matches Ok(t) && t@ == apply_spec(metadata@, empty_tag_view())),
            !new_tag && tag_idx - 1 < tags@.len() ==> (r matches Ok(t) && t@ == apply_spec(
                metadata@,
                tags@[tag_idx - 1]@,
            )),
            !new_tag && tag_idx - 1 >= tags@.len() ==> (r matches Err(e) && e matches
                PiggytagError::Msg(s) && s@ == no_tag_at_index_message_spec(
                file_path@,
                tag_idx as nat,
            )),
    {
        if new_tag {
            let mut tag = Tag::new();
            metadata.mutate_tag(&mut tag);
            Ok(tag)
        } else if tag_idx - 1 < tags.len() {
            let mut tag = tags[tag_idx - 1].clone();
            metadata.mutate_tag(&mut tag);
            Ok(tag)
        } else {
            let name = base_name(file_path);
            let mut msg = String::from_str("file ");
            msg.append(name.as_str());
            msg.append(": no tag available at index ");
            msg.append(u64_to_string(tag_idx as u64).as_str());
            proof {
                assert(msg@ =~= no_tag_at_index_message_spec(file_path@, tag_idx as nat));
            }
            Err(PiggytagError::Msg(msg))
        }
    }

    /// The tags an Edit invocation writes back, one per file, in the order
    /// the files were given. The whole batch fails on the first file with no
    /// tag at the requested index, naming that file.
    pub fn edit_subcommand_plan(args: &EditArgs, collections: &Vec<Vec<Tag>>) -> (r: Result<
        Vec<Tag>,
        PiggytagError,
    >)
        requires
            edit_args_wf(*args),
            collections@.len() == args.filename@.len(),
        ensures
            (r is Ok) == edit_plan_ok(*args, collections@),
            r matches Ok(ts) ==> ts@.len() == args.filename@.len() && (forall|i: int|
                0 <= i < ts@.len() ==> (#[trigger] ts@[i])@ == apply_spec(
                    edit_record_spec(*args, args.filename@[i]@),
                    if args.new_tag {
                        empty_tag_view()
                    } else {
                        collections@[i]@[args.tag_idx - 1]@
                    },
                )),
            r matches Err(e) ==> exists|i: int|
                0 <= i < collections@.len() && args.tag_idx - 1 >= (#[trigger] collections@[i])@.len()
                    && (forall|j: int|
                    0 <= j < i ==> args.tag_idx - 1 < (#[trigger] collections@[j])@.len()) && (
                e matches PiggytagError::Msg(s) && s@ == no_tag_at_index_message_spec(
                    args.filename@[i]@,
                    args.tag_idx as nat,
                )),
    {
        let n = args.filename.len();
        let mut out: Vec<Tag> = Vec::new();
        let mut i: usize = 0;
        while i < n
            invariant
                edit_args_wf(*args),
                collections@.len() == args.filename@.len(),
                n == args.filename@.len(),
                i <= n,
                out@.len() == i,
                forall|j: int|
                    0 <= j < i ==> args.new_tag || args.tag_idx - 1 < (#[trigger] collections@[j])@.len(),
                forall|j: int|
                    0 <= j < i ==> (#[trigger] out@[j])@ == apply_spec(
                        edit_record_spec(*args, args.filename@[j]@),
                        if args.new_tag {
                            empty_tag_view()
                        } else {
                            collections@[j]@[args.tag_idx - 1]@
                        },
                    ),
            decreases n - i,
        {
            let metadata = CLIApp::metadata_from_edit_args(args, &args.filename[i]);
            match CLIApp::edit_tag(
                args.filename[i].as_str(),
                &collections[i],
                args.new_tag,
                args.tag_idx,
                &metadata,
            ) {
                Ok(tag) => {
                    out.push(tag);
                },
                Err(err) => {
                    return Err(err);
                },
            }
            i = i + 1;
        }
        Ok(out)
    }
}

/// Showing with an out-of-range index is exactly showing a file with no tags:
/// the same informational block, whatever tags the file carries.
pub proof fn lemma_show_out_of_range_like_empty(file_path: Seq<char>, tags: Seq<Tag>, idx: int)
    requires
        !(0 <= idx < tags.len()),
    ensures
        show_block_spec(file_path, tags, idx) == show_block_spec(file_path, Seq::<Tag>::empty(), idx),
{
}

} // verus!
