use vstd::prelude::*;

use crate::{
    base_name, base_name_spec, clone_opt_string, dec_seq, get_formatted_key_val, key_val_spec,
    opt_as_str, opt_str_view, opt_string_view, u64_to_string,
};

verus! {

/// One metadata tag of an audio file, as the library models it: the
/// displayable fields, each independently optional.
#[derive(Debug)]
pub struct Tag {
    pub title: Option<String>,
    pub artist: Option<String>,
    pub album: Option<String>,
    pub track: Option<u32>,
    pub year: Option<u32>,
    pub comment: Option<String>,
    pub genre: Option<String>,
}

/// Mathematical view of a `Tag`.
#[verifier::ext_equal]
pub struct TagView {
    pub title: Option<Seq<char>>,
    pub artist: Option<Seq<char>>,
    pub album: Option<Seq<char>>,
    pub track: Option<u32>,
    pub year: Option<u32>,
    pub comment: Option<Seq<char>>,
    pub genre: Option<Seq<char>>,
}

impl View for Tag {
    type V = TagView;

    open spec fn view(&self) -> TagView {
        TagView {
            title: opt_string_view(self.title),
            artist: opt_string_view(self.artist),
            album: opt_string_view(self.album),
            track: self.track,
            year: self.year,
            comment: opt_string_view(self.comment),
            genre: opt_string_view(self.genre),
        }
    }
}

/// The view of a tag with no field set.
pub open spec fn empty_tag_view() -> TagView {
    TagView {
        title: None,
        artist: None,
        album: None,
        track: None,
        year: None,
        comment: None,
        genre: None,
    }
}

impl Tag {
    /// A brand-new tag with no field set.
    pub fn new() -> (r: Tag)
        ensures
            r@ == empty_tag_view(),
    {
        Tag {
            title: None,
            artist: None,
            album: None,
            track: None,
            year: None,
            comment: None,
            genre: None,
        }
    }
}

impl Default for Tag {
    fn default() -> (r: Tag)
        ensures
            r@ == empty_tag_view(),
    {
        Tag::new()
    }
}

impl Clone for Tag {
    fn clone(&self) -> (r: Tag)
        ensures
            r@ == self@,
    {
        Tag {
            title: clone_opt_string(&self.title),
            artist: clone_opt_string(&self.artist),
            album: clone_opt_string(&self.album),
            track: self.track,
            year: self.year,
            comment: clone_opt_string(&self.comment),
            genre: clone_opt_string(&self.genre),
        }
    }
}

/// A uniform metadata record for one tag of one audio file.
#[derive(Debug)]
pub struct AudioMetadata {
    pub filename: Option<String>,
    pub title: Option<String>,
    pub artist: Option<String>,
    pub album: Option<String>,
    pub track: Option<u32>,
    pub year: Option<u32>,
    pub comment: Option<String>,
    pub genre: Option<String>,
}

/// Mathematical view of an `AudioMetadata`.
#[verifier::ext_equal]
pub struct AudioMetadataView {
    pub filename: Option<Seq<char>>,
    pub title: Option<Seq<char>>,
    pub artist: Option<Seq<char>>,
    pub album: Option<Seq<char>>,
    pub track: Option<u32>,
    pub year: Option<u32>,
    pub comment: Option<Seq<char>>,
    pub genre: Option<Seq<char>>,
}

impl View for AudioMetadata {
    type V = AudioMetadataView;

    open spec fn view(&self) -> AudioMetadataView {
        AudioMetadataView {
            filename: opt_string_view(self.filename),
            title: opt_string_view(self.title),
            artist: opt_string_view(self.artist),
            album: opt_string_view(self.album),
            track: self.track,
            year: self.year,
            comment: opt_string_view(self.comment),
            genre: opt_string_view(self.genre),
        }
    }
}

/// The record read off one tag: every displayable field of the tag, plus the
/// file's display name.
pub open spec fn read_spec(name: Seq<char>, t: TagView) -> AudioMetadataView {
    AudioMetadataView {
        filename: Some(name),
        title: t.title,
        artist: t.artist,
        album: t.album,
        track: t.track,
        year: t.year,
        comment: t.comment,
        genre: t.genre,
    }
}

/// Partial update of a tag by a record: a field the record carries overwrites
/// the tag's; a field it does not carry leaves the tag's untouched.
pub open spec fn apply_spec(m: AudioMetadataView, t: TagView) -> TagView {
    TagView {
        title: if m.title is Some {
            m.title
        } else {
            t.title
        },
        artist: if m.artist is Some {
            m.artist
        } else {
            t.artist
        },
        album: if m.album is Some {
            m.album
        } else {
            t.album
        },
        track: if m.track is Some {
            m.track
        } else {
            t.track
        },
        year: if m.year is Some {
            m.year
        } else {
            t.year
        },
        comment: if m.comment is Some {
            m.comment
        } else {
            t.comment
        },
        genre: if m.genre is Some {
            m.genre
        } else {
            t.genre
        },
    }
}

/// Decimal view of an optional number.
pub open spec fn opt_u32_dec(v: Option<u32>) -> Option<Seq<char>> {
    match v {
        Some(n) => Some(dec_seq(n as nat)),
        None => None,
    }
}

/// The full display form of a record: eight `Key: value` lines in fixed order.
pub open spec fn formatted_spec(m: AudioMetadataView) -> Seq<char> {
    key_val_spec("Filename"@, m.filename) + key_val_spec("Title"@, m.title) + key_val_spec(
        "Artist"@,
        m.artist,
    ) + key_val_spec("Album"@, m.album) + key_val_spec("Track"@, opt_u32_dec(m.track))
        + key_val_spec("Year"@, opt_u32_dec(m.year)) + key_val_spec("Comment"@, m.comment)
        + key_val_spec("Genre"@, m.genre)
}

impl AudioMetadata {
    /// Parse an `AudioMetadata` out of tag number `idx` of the given file's
    /// tag collection. Returns `None` when no tag stands at that index.
    pub fn parse_from_tagged_file(file_path: &str, tags: &Vec<Tag>, idx: usize) -> (r: Option<
        AudioMetadata,
    >)
        ensures
            (r is Some) == (idx < tags@.len()),
            r matches Some(m) ==> m@ == read_spec(base_name_spec(file_path@), tags@[idx as int]@),
    {
        if tags.len() == 0 || idx >= tags.len() {
            return None;
        }
        let tag = &tags[idx];
        Some(
            AudioMetadata {
                filename: Some(base_name(file_path)),
                title: clone_opt_string(&tag.title),
                artist: clone_opt_string(&tag.artist),
                album: clone_opt_string(&tag.album),
                track: tag.track,
                year: tag.year,
                comment: clone_opt_string(&tag.comment),
                genre: clone_opt_string(&tag.genre),
            },
        )
    }

    /// Mutate a tag in place: overwrite exactly the fields this record
    /// carries, leaving the rest of the tag as it was.
    pub fn mutate_tag(&self, tag: &mut Tag)
        ensures
            final(tag)@ == apply_spec(self@, old(tag)@),
    {
        if let Some(artist) = &self.artist {
            tag.artist = Some(artist.clone());
        }
        if let Some(album) = &self.album {
            tag.album = Some(album.clone());
        }
        if let Some(title) = &self.title {
            tag.title = Some(title.clone());
        }
        if let Some(track) = self.track {
            tag.track = Some(track);
        }
        if let Some(year) = self.year {
            tag.year = Some(year);
        }
        if let Some(comment) = &self.comment {
            tag.comment = Some(comment.clone());
        }
        if let Some(genre) = &self.genre {
            tag.genre = Some(genre.clone());
        }
        proof {
            assert(final(tag)@ =~= apply_spec(self@, old(tag)@));
        }
    }

    /// Render the record for display: eight `Key: value` lines in fixed
    /// order, absent fields shown as the placeholder.
    pub fn formatted(&self) -> (r: String)
        ensures
            r@ == formatted_spec(self@),
    {
        let mut out = get_formatted_key_val("Filename", opt_as_str(&self.filename));
        out.append(get_formatted_key_val("Title", opt_as_str(&self.title)).as_str());
        out.append(get_formatted_key_val("Artist", opt_as_str(&self.artist)).as_str());
        out.append(get_formatted_key_val("Album", opt_as_str(&self.album)).as_str());
        let track_str = match self.track {
            Some(n) => Some(u64_to_string(n as u64)),
            None => None,
        };
        out.append(get_formatted_key_val("Track", opt_as_str(&track_str)).as_str());
        let year_str = match self.year {
            Some(n) => Some(u64_to_string(n as u64)),
            None => None,
        };
        out.append(get_formatted_key_val("Year", opt_as_str(&year_str)).as_str());
        out.append(get_formatted_key_val("Comment", opt_as_str(&self.comment)).as_str());
        out.append(get_formatted_key_val("Genre", opt_as_str(&self.genre)).as_str());
        out
    }
}

/// Round-trip law of the tag adapter: writing a record onto a tag and reading
/// the tag back yields the record's own fields where they were set and the
/// tag's prior fields everywhere else.
pub proof fn lemma_partial_update_round_trip(m: AudioMetadataView, t: TagView, name: Seq<char>)
    ensures
        ({
            let r = read_spec(name, apply_spec(m, t));
            &&& r.filename == Some(name)
            &&& r.title == (if m.title is Some { m.title } else { t.title })
            &&& r.artist == (if m.artist is Some { m.artist } else { t.artist })
            &&& r.album == (if m.album is Some { m.album } else { t.album })
            &&& r.track == (if m.track is Some { m.track } else { t.track })
            &&& r.year == (if m.year is Some { m.year } else { t.year })
            &&& r.comment == (if m.comment is Some { m.comment } else { t.comment })
            &&& r.genre == (if m.genre is Some { m.genre } else { t.genre })
        }),
{
}

/// Creation law of the tag adapter: a record applied to an empty tag sets
/// exactly the record's own fields and leaves every other field absent.
pub proof fn lemma_apply_to_empty_exact(m: AudioMetadataView)
    ensures
        apply_spec(m, empty_tag_view()) == (TagView {
            title: m.title,
            artist: m.artist,
            album: m.album,
            track: m.track,
            year: m.year,
            comment: m.comment,
            genre: m.genre,
        }),
{
    assert(apply_spec(m, empty_tag_view()) =~= (TagView {
        title: m.title,
        artist: m.artist,
        album: m.album,
        track: m.track,
        year: m.year,
        comment: m.comment,
        genre: m.genre,
    }));
}

} // verus!
