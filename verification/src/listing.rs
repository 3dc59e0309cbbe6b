//! Directory listings: classifying enumerated entries and filtering them
//! through the configured exclusion patterns.

use vstd::prelude::*;

use crate::config::Server;
use crate::outside::{
    pattern_views, regex_set_is_match, regex_set_matches, regex_set_new, regex_set_patterns,
    regex_set_valid,
};
use crate::text::{chars_eq, chars_of, push_all, spec_contains_seq, sub_chars};
use crate::paths::{spec_after_seq};

verus! {

/// One entry of an enumerated directory, as the filesystem reports it:
/// its bare name (no separator) and whether it is itself a directory.
pub struct DirEntry {
    pub name: String,
    pub is_dir: bool,
}

/// The mathematical content of a directory entry.
pub struct EntryModel {
    pub name: Seq<char>,
    pub is_dir: bool,
}

impl View for DirEntry {
    type V = EntryModel;

    open spec fn view(&self) -> EntryModel {
        EntryModel { name: self.name@, is_dir: self.is_dir }
    }
}

/// One line of a rendered directory listing.
pub struct DirectoryElement {
    /// The entry's bare name.
    pub entry: String,
    /// Its display class: "folder", "ruby", "image", "text" or "file".
    pub entry_type: String,
    /// Where the entry's link points: the listed location plus the name.
    pub link: String,
    pub is_directory: bool,
}

/// The mathematical content of a listing line.
#[verifier::ext_equal]
pub struct ElementModel {
    pub entry: Seq<char>,
    pub entry_type: Seq<char>,
    pub link: Seq<char>,
    pub is_directory: bool,
}

impl View for DirectoryElement {
    type V = ElementModel;

    open spec fn view(&self) -> ElementModel {
        ElementModel {
            entry: self.entry@,
            entry_type: self.entry_type@,
            link: self.link@,
            is_directory: self.is_directory,
        }
    }
}

/// The display class of an entry: directories are "folder"; a name with
/// exactly one dot is classed by its extension (rb, jpg, jpeg, png, txt);
/// everything else is "file".
pub open spec fn spec_entry_type(name: Seq<char>, is_dir: bool) -> Seq<char> {
    if is_dir {
        "folder"@
    } else if spec_contains_seq(name, "."@) && !spec_contains_seq(spec_after_seq(name, "."@), "."@) {
        let ext = spec_after_seq(name, "."@);
        if ext == "rb"@ {
            "ruby"@
        } else if ext == "jpg"@ || ext == "jpeg"@ || ext == "png"@ {
            "image"@
        } else if ext == "txt"@ {
            "text"@
        } else {
            "file"@
        }
    } else {
        "file"@
    }
}

/// Where an entry's link points: the listed location, a separator when the
/// location does not already end in one, and the entry's name.
pub open spec fn spec_link(loc: Seq<char>, name: Seq<char>) -> Seq<char> {
    if loc.len() > 0 && loc.last() == '/' {
        loc + name
    } else {
        loc + "/"@ + name
    }
}

/// Whether a listing shows an entry: nothing an exclusion pattern matches,
/// and directories only when listing is enabled.
pub open spec fn spec_included(
    patterns: Seq<Seq<char>>,
    listing_enabled: bool,
    e: EntryModel,
) -> bool {
    &&& !regex_set_matches(patterns, e.name)
    &&& (e.is_dir ==> listing_enabled)
}

/// The listing line an entry becomes.
pub open spec fn spec_element(loc: Seq<char>, e: EntryModel) -> ElementModel {
    ElementModel {
        entry: e.name,
        entry_type: spec_entry_type(e.name, e.is_dir),
        link: spec_link(loc, e.name),
        is_directory: e.is_dir,
    }
}

/// The listing of `entries` at `loc`: the included entries, in enumeration
/// order, each classified and linked.
pub open spec fn spec_listing(
    patterns: Seq<Seq<char>>,
    listing_enabled: bool,
    loc: Seq<char>,
    entries: Seq<EntryModel>,
) -> Seq<ElementModel>
    decreases entries.len(),
{
    if entries.len() == 0 {
        Seq::empty()
    } else {
        let rest = spec_listing(patterns, listing_enabled, loc, entries.drop_last());
        if spec_included(patterns, listing_enabled, entries.last()) {
            rest.push(spec_element(loc, entries.last()))
        } else {
            rest
        }
    }
}

/// The display class of one entry, as a string.
pub fn classify_entry(name: &str, is_dir: bool) -> (r: String)
    ensures
        r@ == spec_entry_type(name@, is_dir),
{
    if is_dir {
        return "folder".to_owned();
    }
    let chars = chars_of(name);
    let dot = chars_of(".");
    match crate::text::find_seq(&chars, &dot) {
        Some(i) => {
            proof {
                reveal_strlit(".");
                crate::text::lemma_find_first(chars@, dot@);
                assert(i as int == crate::text::spec_find(chars@, dot@));
                assert(i + dot@.len() <= chars@.len());
            }
            let n = chars.len();
            let ext = sub_chars(&chars, i + 1, n);
            proof {
                assert(ext@ == spec_after_seq(name@, "."@));
            }
            if crate::text::contains_seq(&ext, &dot) {
                return "file".to_owned();
            }
            if chars_eq(&ext, &chars_of("rb")) {
                "ruby".to_owned()
            } else if chars_eq(&ext, &chars_of("jpg")) || chars_eq(&ext, &chars_of("jpeg"))
                || chars_eq(&ext, &chars_of("png")) {
                "image".to_owned()
            } else if chars_eq(&ext, &chars_of("txt")) {
                "text".to_owned()
            } else {
                "file".to_owned()
            }
        },
        None => "file".to_owned(),
    }
}

impl Server {
    /// The listing of the enumerated entries at `location`: entries an
    /// exclusion pattern matches are left out, directories are left out
    /// unless listing is enabled, and each kept entry is classified by its
    /// extension and linked under the listed location. `None` when the
    /// exclusion patterns do not compile: the caller then logs the failed
    /// check for each entry and lists nothing.
    pub fn list_directory(&self, location: &str, entries: &Vec<DirEntry>) -> (r: Option<Vec<
        DirectoryElement,
    >>)
        ensures
            r is Some <==> regex_set_valid(pattern_views(self.exclusion@)),
            r matches Some(listed) ==> listed@.map_values(|el: DirectoryElement| el@)
                == spec_listing(
                pattern_views(self.exclusion@),
                self.directory_listing,
                location@,
                entries@.map_values(|e: DirEntry| e@),
            ),
    {
        let mut r: Vec<DirectoryElement> = Vec::new();
        let matcher = match regex_set_new(&self.exclusion) {
            Some(m) => m,
            None => {
                return None;
            },
        };
        let loc = chars_of(location);
        let mut i: usize = 0;
        while i < entries.len()
            invariant
                0 <= i <= entries@.len(),
                loc@ == location@,
                regex_set_valid(pattern_views(self.exclusion@)),
                regex_set_patterns(&matcher) == pattern_views(self.exclusion@),
                r@.map_values(|el: DirectoryElement| el@) =~~= spec_listing(
                    pattern_views(self.exclusion@),
                    self.directory_listing,
                    location@,
                    entries@.map_values(|e: DirEntry| e@).take(i as int),
                ),
            decreases entries@.len() - i,
        {
            let ghost models = entries@.map_values(|e: DirEntry| e@);
            proof {
                assert(models.take(i + 1).drop_last() =~= models.take(i as int));
                assert(models.take(i + 1).last() == models[i as int]);
            }
            let e = &entries[i];
            let matched = regex_set_is_match(&matcher, e.name.as_str());
            if !matched && (!e.is_dir || self.directory_listing) {
                let entry_type = classify_entry(e.name.as_str(), e.is_dir);
                let mut link = crate::text::clone_chars(&loc);
                if loc.len() > 0 && loc[loc.len() - 1] == '/' {
                } else {
                    link.push('/');
                }
                let name_chars = chars_of(e.name.as_str());
                push_all(&mut link, &name_chars);
                proof {
                    reveal_strlit("/");
                    assert("/"@ =~= seq!['/']);
                    assert(link@ =~= spec_link(location@, e.name@));
                }
                let el = DirectoryElement {
                    entry: e.name.clone(),
                    entry_type,
                    link: crate::outside::string_from_chars(&link),
                    is_directory: e.is_dir,
                };
                proof {
                    assert(el@ =~~= spec_element(location@, models[i as int]));
                }
                r.push(el);
                proof {
                    assert(r@.map_values(|el: DirectoryElement| el@) =~~= spec_listing(
                        pattern_views(self.exclusion@),
                        self.directory_listing,
                        location@,
                        models.take(i + 1),
                    ));
                }
            } else {
                proof {
                    assert(r@.map_values(|el: DirectoryElement| el@) =~~= spec_listing(
                        pattern_views(self.exclusion@),
                        self.directory_listing,
                        location@,
                        models.take(i + 1),
                    ));
                }
            }
            i += 1;
        }
        proof {
            let models = entries@.map_values(|e: DirEntry| e@);
            assert(models.take(models.len() as int) =~= models);
        }
        Some(r)
    }
}

/// Every entry the filter keeps appears in the listing: a non-matching
/// file, or a non-matching directory while listing is enabled, is shown.
pub proof fn lemma_listing_complete(
    patterns: Seq<Seq<char>>,
    listing_enabled: bool,
    loc: Seq<char>,
    entries: Seq<EntryModel>,
    i: int,
)
    requires
        0 <= i < entries.len(),
        spec_included(patterns, listing_enabled, entries[i]),
    ensures
        spec_listing(patterns, listing_enabled, loc, entries).contains(
            spec_element(loc, entries[i]),
        ),
    decreases entries.len(),
{
    let listed = spec_listing(patterns, listing_enabled, loc, entries);
    if i == entries.len() - 1 {
        assert(listed[listed.len() - 1] == spec_element(loc, entries[i]));
    } else {
        assert(entries.drop_last()[i] == entries[i]);
        lemma_listing_complete(patterns, listing_enabled, loc, entries.drop_last(), i);
        let rest = spec_listing(patterns, listing_enabled, loc, entries.drop_last());
        let j = choose|j: int| 0 <= j < rest.len() && rest[j] == spec_element(loc, entries[i]);
        assert(listed[j] == spec_element(loc, entries[i]));
    }
}

/// Everything the listing shows comes from an entry the filter keeps: an
/// entry some exclusion pattern matches, or a directory while listing is
/// disabled, appears nowhere.
pub proof fn lemma_listing_sound(
    patterns: Seq<Seq<char>>,
    listing_enabled: bool,
    loc: Seq<char>,
    entries: Seq<EntryModel>,
    j: int,
)
    requires
        0 <= j < spec_listing(patterns, listing_enabled, loc, entries).len(),
    ensures
        exists|i: int|
            0 <= i < entries.len() && spec_included(patterns, listing_enabled, entries[i])
                && spec_listing(patterns, listing_enabled, loc, entries)[j] == spec_element(
                loc,
                entries[i],
            ),
    decreases entries.len(),
{
    let listed = spec_listing(patterns, listing_enabled, loc, entries);
    let rest = spec_listing(patterns, listing_enabled, loc, entries.drop_last());
    if spec_included(patterns, listing_enabled, entries.last()) && j == listed.len() - 1 {
        assert(listed[j] == spec_element(loc, entries[entries.len() - 1]));
    } else {
        lemma_listing_sound(patterns, listing_enabled, loc, entries.drop_last(), j);
        let i = choose|i: int|
            0 <= i < entries.drop_last().len() && spec_included(
                patterns,
                listing_enabled,
                entries.drop_last()[i],
            ) && rest[j] == spec_element(loc, entries.drop_last()[i]);
        assert(entries[i] == entries.drop_last()[i]);
        assert(listed[j] == spec_element(loc, entries[i]));
    }
}

} // verus!
