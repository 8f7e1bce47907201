//! The list of files picked for conversion and which of them is selected.

use crate::state::errors::{StateError, StateErrorView, StateResult};
use crate::utils::text::{clone_opt, opt_chars, prefixed};
use vstd::prelude::*;
use vstd::string::*;

verus! {

/// Video file information. The id is held as its text. The duration is held
/// as the bit pattern of a double-precision number of seconds; the list
/// carries it and never reads it.
#[derive(Debug, PartialEq, Eq)]
pub struct FileInfo {
    pub id: String,
    pub name: String,
    pub path: String,
    pub size: u64,
    pub file_type: String,
    pub duration: Option<u64>,
    pub resolution: Option<(u32, u32)>,
    pub thumbnail: Option<String>,
}

/// A `FileInfo` with its strings read as characters.
pub struct FileInfoView {
    pub id: Seq<char>,
    pub name: Seq<char>,
    pub path: Seq<char>,
    pub size: u64,
    pub file_type: Seq<char>,
    pub duration: Option<u64>,
    pub resolution: Option<(u32, u32)>,
    pub thumbnail: Option<Seq<char>>,
}

impl View for FileInfo {
    type V = FileInfoView;

    open spec fn view(&self) -> FileInfoView {
        FileInfoView {
            id: self.id@,
            name: self.name@,
            path: self.path@,
            size: self.size,
            file_type: self.file_type@,
            duration: self.duration,
            resolution: self.resolution,
            thumbnail: opt_chars(self.thumbnail),
        }
    }
}

impl Clone for FileInfo {
    fn clone(&self) -> (copy: FileInfo)
        ensures
            copy@ == self@,
    {
        FileInfo {
            id: self.id.clone(),
            name: self.name.clone(),
            path: self.path.clone(),
            size: self.size,
            file_type: self.file_type.clone(),
            duration: self.duration,
            resolution: self.resolution,
            thumbnail: clone_opt(&self.thumbnail),
        }
    }
}

/// General state for conversion.
#[derive(Debug, PartialEq, Eq)]
pub struct ConversionState {
    pub files: Vec<FileInfo>,
    pub selected_file_id: Option<String>,
}

/// A `ConversionState` with its strings read as characters.
pub struct ConversionStateView {
    pub files: Seq<FileInfoView>,
    pub selected_file_id: Option<Seq<char>>,
}

/// A list of files, each read as its view.
pub open spec fn file_views(files: Seq<FileInfo>) -> Seq<FileInfoView> {
    files.map_values(|f: FileInfo| f@)
}

impl View for ConversionState {
    type V = ConversionStateView;

    open spec fn view(&self) -> ConversionStateView {
        ConversionStateView {
            files: file_views(self.files@),
            selected_file_id: opt_chars(self.selected_file_id),
        }
    }
}

impl ConversionStateView {
    /// Whether some file has this path.
    pub open spec fn has_path(self, path: Seq<char>) -> bool {
        exists|i: int| 0 <= i < self.files.len() && (#[trigger] self.files[i]).path == path
    }

    /// Whether some file has this id.
    pub open spec fn has_file(self, id: Seq<char>) -> bool {
        exists|i: int| 0 <= i < self.files.len() && (#[trigger] self.files[i]).id == id
    }

    /// Whether `i` is the place of the first file with this id.
    pub open spec fn is_first_with_id(self, i: int, id: Seq<char>) -> bool {
        &&& 0 <= i < self.files.len()
        &&& self.files[i].id == id
        &&& forall|j: int| 0 <= j < i ==> (#[trigger] self.files[j]).id != id
    }

    /// The id of the first file, if there is a file.
    pub open spec fn first_id(self) -> Option<Seq<char>> {
        if self.files.len() > 0 {
            Some(self.files[0].id)
        } else {
            None
        }
    }

    /// The state after a file was offered. A file whose path is in the list
    /// already is not added. A file that is added goes last, and where
    /// nothing was selected the first file of the list becomes selected.
    pub open spec fn with_file(self, file: FileInfoView) -> ConversionStateView {
        if self.has_path(file.path) {
            self
        } else {
            let files = self.files.push(file);
            ConversionStateView {
                files,
                selected_file_id: if self.selected_file_id is None {
                    Some(files[0].id)
                } else {
                    self.selected_file_id
                },
            }
        }
    }

    /// The place of the first file with this id, where there is one.
    pub open spec fn index_of(self, id: Seq<char>) -> int {
        choose|i: int| self.is_first_with_id(i, id)
    }

    /// The state after the first file with this id was removed.
    pub open spec fn without_file(self, id: Seq<char>) -> ConversionStateView {
        self.without_file_at(self.index_of(id))
    }

    /// The state after the file at place `i` was removed. Where it was the
    /// selected one, the first file left becomes selected.
    pub open spec fn without_file_at(self, i: int) -> ConversionStateView {
        let files = self.files.remove(i);
        let left = ConversionStateView { files, selected_file_id: self.selected_file_id };
        ConversionStateView {
            files,
            selected_file_id: if self.selected_file_id == Some(self.files[i].id) {
                left.first_id()
            } else {
                self.selected_file_id
            },
        }
    }
}

/// Copies a list of files.
pub fn clone_files(files: &Vec<FileInfo>) -> (copy: Vec<FileInfo>)
    ensures
        file_views(copy@) == file_views(files@),
{
    let mut copy: Vec<FileInfo> = Vec::new();
    let mut i: usize = 0;
    while i < files.len()
        invariant
            i <= files.len(),
            copy@.len() == i,
            forall|j: int| 0 <= j < i ==> (#[trigger] copy@[j])@ == files@[j]@,
        decreases files.len() - i,
    {
        copy.push(files[i].clone());
        i += 1;
    }
    assert(file_views(copy@) =~= file_views(files@));
    copy
}

impl Clone for ConversionState {
    fn clone(&self) -> (copy: ConversionState)
        ensures
            copy@ == self@,
    {
        ConversionState {
            files: clone_files(&self.files),
            selected_file_id: clone_opt(&self.selected_file_id),
        }
    }
}

impl Default for ConversionState {
    fn default() -> (state: ConversionState)
        ensures
            state@ == (ConversionStateView { files: Seq::empty(), selected_file_id: None }),
    {
        let state = ConversionState { files: Vec::new(), selected_file_id: None };
        assert(state@.files =~= Seq::empty());
        state
    }
}

impl ConversionState {
    /// The empty state: no file, nothing selected.
    pub fn new() -> (state: ConversionState)
        ensures
            state@ == (ConversionStateView { files: Seq::empty(), selected_file_id: None }),
    {
        let state = ConversionState { files: Vec::new(), selected_file_id: None };
        assert(state@.files =~= Seq::empty());
        state
    }

    /// The place of the first file with this id.
    fn position(&self, id: &String) -> (r: Option<usize>)
        ensures
            r is Some <==> self@.has_file(id@),
            r is Some ==> self@.is_first_with_id(r->0 as int, id@) && self@.index_of(id@)
                == r->0,
    {
        let mut i: usize = 0;
        while i < self.files.len()
            invariant
                i <= self.files.len(),
                forall|j: int| 0 <= j < i ==> (#[trigger] self.files@[j]).id@ != id@,
            decreases self.files.len() - i,
        {
            if self.files[i].id == *id {
                proof {
                    assert(self@.files[i as int] == self.files@[i as int]@);
                    assert forall|j: int| 0 <= j < i implies (#[trigger] self@.files[j]).id
                        != id@ by {
                        assert(self@.files[j] == self.files@[j]@);
                    }
                    assert(self@.is_first_with_id(i as int, id@));
                    let c = self@.index_of(id@);
                    assert(self@.is_first_with_id(c, id@));
                    assert(self@.files[c].id == id@ && self@.files[i as int].id == id@);
                }
                return Some(i);
            }
            i += 1;
        }
        proof {
            assert forall|j: int| 0 <= j < self@.files.len() implies (#[trigger] self@.files[j]).id
                != id@ by {
                assert(self@.files[j] == self.files@[j]@);
            }
        }
        None
    }

    /// Whether some file has this path.
    fn has_path(&self, path: &String) -> (found: bool)
        ensures
            found == self@.has_path(path@),
    {
        let mut i: usize = 0;
        while i < self.files.len()
            invariant
                i <= self.files.len(),
                forall|j: int| 0 <= j < i ==> (#[trigger] self.files@[j]).path@ != path@,
            decreases self.files.len() - i,
        {
            if self.files[i].path == *path {
                assert(self@.files[i as int] == self.files@[i as int]@);
                return true;
            }
            i += 1;
        }
        proof {
            assert forall|j: int| 0 <= j < self@.files.len() implies (
            #[trigger] self@.files[j]).path != path@ by {
                assert(self@.files[j] == self.files@[j]@);
            }
        }
        false
    }

    /// Add a file to the list: see `ConversionStateView::with_file`.
    pub fn add_file_to_list(&mut self, file_info: FileInfo) -> (r: StateResult<()>)
        ensures
            r is Ok,
            final(self)@ == old(self)@.with_file(file_info@),
    {
        if !self.has_path(&file_info.path) {
            self.files.push(file_info);
            assert(self@.files =~= old(self)@.files.push(file_info@));
            if self.selected_file_id.is_none() {
                assert(self@.files[0] == self.files@[0]@);
                self.selected_file_id = Some(self.files[0].id.clone());
            }
        }
        Ok(())
    }

    /// Remove the first file with this id from the list: see
    /// `ConversionStateView::without_file_at`. Where no file has the id,
    /// nothing changes and `FileNotFound` is returned.
    pub fn remove_file_from_list(&mut self, file_id: &str) -> (r: StateResult<()>)
        ensures
            old(self)@.has_file(file_id@) ==> r is Ok && final(self)@ == old(self)@.without_file(
                file_id@,
            ),
            !old(self)@.has_file(file_id@) ==> r is Err && r->Err_0@
                == StateErrorView::FileNotFound(file_id@) && final(self)@ == old(self)@,
    {
        let id = String::from_str(file_id);
        match self.position(&id) {
            Some(index) => {
                assert(self@.files[index as int] == self.files@[index as int]@);
                let _ = self.files.remove(index);
                assert(self@.files =~= old(self)@.files.remove(index as int));
                let was_selected = match &self.selected_file_id {
                    Some(selected) => *selected == id,
                    None => false,
                };
                if was_selected {
                    if self.files.len() > 0 {
                        assert(self@.files[0] == self.files@[0]@);
                        self.selected_file_id = Some(self.files[0].id.clone());
                    } else {
                        self.selected_file_id = None;
                    }
                }
                assert(self@ == old(self)@.without_file_at(index as int));
                Ok(())
            },
            None => Err(StateError::file_not_found(id)),
        }
    }

    /// Select a file, or nothing. An id that no file has is refused and the
    /// selection stays as it was.
    pub fn select_file(&mut self, file_id: Option<String>) -> (r: StateResult<()>)
        ensures
            final(self)@.files == old(self)@.files,
            file_id is None ==> r is Ok && final(self)@.selected_file_id is None,
            file_id is Some && old(self)@.has_file(file_id->0@) ==> r is Ok && final(
                self
            )@.selected_file_id == Some(file_id->0@),
            file_id is Some && !old(self)@.has_file(file_id->0@) ==> r is Err && r->Err_0@
                == StateErrorView::FileNotFound(file_id->0@) && final(self)@ == old(self)@,
    {
        match file_id {
            Some(id) => {
                if self.position(&id).is_some() {
                    self.selected_file_id = Some(id);
                    Ok(())
                } else {
                    Err(StateError::file_not_found(id))
                }
            },
            None => {
                self.selected_file_id = None;
                Ok(())
            },
        }
    }

    /// Empty the list and select nothing.
    pub fn clear_file_list(&mut self) -> (r: StateResult<()>)
        ensures
            r is Ok,
            final(self)@ == (ConversionStateView { files: Seq::empty(), selected_file_id: None }),
    {
        self.files.clear();
        self.selected_file_id = None;
        assert(self@.files =~= Seq::empty());
        Ok(())
    }
}

/// What `uuid::Uuid::parse_str` makes of a text: the id written in its
/// hyphenated form, or nothing where the text is no id.
pub uninterp spec fn parsed_uuid(text: Seq<char>) -> Option<Seq<char>>;

/// Reads a UUID: `uuid::Uuid::parse_str`, and the id it finds written with
/// its `Display` impl.
///
/// Trusted: the result is a function of the text alone, named
/// `parsed_uuid`, and an id that was found is written in 36 characters.
#[verifier::external_body]
fn parse_uuid(text: &str) -> (id: Option<String>)
    ensures
        opt_chars(id) == parsed_uuid(text@),
        id is Some ==> id->0@.len() == 36,
{
    match uuid::Uuid::parse_str(text) {
        Ok(id) => Some(id.to_string()),
        Err(_) => None,
    }
}

/// The file id for a text that was read as a UUID, `parsed` being what was
/// read: the id, or the error that the text is no file id.
pub fn file_id_from_parsed(file_id_str: &str, parsed: Option<String>) -> (r: StateResult<String>)
    ensures
        parsed is Some ==> r is Ok && r->Ok_0@ == parsed->0@,
        parsed is None ==> r is Err && r->Err_0@ == StateErrorView::Other(
            "Invalid file ID: "@ + file_id_str@,
        ),
{
    match parsed {
        Some(id) => Ok(id),
        None => Err(StateError::other(prefixed("Invalid file ID: ", file_id_str))),
    }
}

/// Reads a file id from a text that holds a UUID in any of its written
/// forms.
pub fn get_file_id_from_string(file_id_str: &str) -> (r: StateResult<String>)
    ensures
        parsed_uuid(file_id_str@) is Some ==> r is Ok && r->Ok_0@ == parsed_uuid(
            file_id_str@,
        )->0,
        parsed_uuid(file_id_str@) is None ==> r is Err && r->Err_0@ == StateErrorView::Other(
            "Invalid file ID: "@ + file_id_str@,
        ),
{
    file_id_from_parsed(file_id_str, parse_uuid(file_id_str))
}

} // verus!
