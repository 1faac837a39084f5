//! The command-line configuration of the pipeline: where data lives, which stores to
//! reset, and which store to load the final dataset from.

use vstd::prelude::*;
use crate::data::DataStore;
use crate::paths::{join_path, spec_join};
use crate::text::owned;

verus! {

/// Command-line arguments controlling data paths and rebuild behaviour. Paths are
/// resolved against the project root, which defaults to the working directory.
pub struct Args {
    /// Project root absolute path (the working directory when absent).
    pub project_root: Option<String>,
    /// Data directory, relative to the project root.
    pub data_relative_path: String,
    /// Raw data folder, inside the data directory.
    pub raw_data_folder_name: String,
    /// Drop and reload the census table even if it already holds data.
    pub delete_table: bool,
    /// Delete and recreate the census bucket before uploading.
    pub delete_bucket: bool,
    /// The store the final dataset is loaded from.
    pub load_store: DataStore,
}

impl Clone for Args {
    fn clone(&self) -> (r: Self)
        ensures
            r == *self,
    {
        Args {
            project_root: match &self.project_root {
                Some(p) => Some(p.clone()),
                None => None,
            },
            data_relative_path: self.data_relative_path.clone(),
            raw_data_folder_name: self.raw_data_folder_name.clone(),
            delete_table: self.delete_table,
            delete_bucket: self.delete_bucket,
            load_store: self.load_store,
        }
    }
}

/// The text that `{:?}` gives for a path.
pub uninterp spec fn path_debug_text(p: Seq<char>) -> Seq<char>;

/// The text that `{:?}` gives for a string.
pub uninterp spec fn str_debug_text(s: Seq<char>) -> Seq<char>;

/// Printable ASCII text with no backslash and no quote of either kind: what a debug
/// form leaves as it is.
pub open spec fn plain_text(s: Seq<char>) -> bool {
    forall|i: int| 0 <= i < s.len() ==> {
        let c = #[trigger] s[i];
        32 <= c as int <= 126 && c != '\\' && c != '"' && c != '\''
    }
}

/// `s` between double quotes.
pub open spec fn quoted_text(s: Seq<char>) -> Seq<char> {
    seq!['"'] + s + seq!['"']
}

/// std's `Debug` for `Path`: the quoted, escaped form of the path; plain text is only
/// put between double quotes.
#[verifier::external_body]
fn path_debug(p: &str) -> (r: String)
    ensures
        r@ == path_debug_text(p@),
        plain_text(p@) ==> r@ == quoted_text(p@),
{
    format!("{:?}", std::path::Path::new(p))
}

/// Printable ASCII text.
pub open spec fn printable_ascii(s: Seq<char>) -> bool {
    forall|i: int| 0 <= i < s.len() ==> 32 <= #[trigger] s[i] as int <= 126
}

/// How the debug form of a string writes a printable ASCII character: a backslash and
/// a double quote behind a backslash, every other one as it is.
pub open spec fn str_escaped_char(c: char) -> Seq<char> {
    if c == '\\' {
        seq!['\\', '\\']
    } else if c == '"' {
        seq!['\\', '"']
    } else {
        seq![c]
    }
}

/// Printable ASCII text as the debug form of a string writes it between its quotes.
pub open spec fn str_escaped(s: Seq<char>) -> Seq<char>
    decreases s.len(),
{
    if s.len() == 0 {
        Seq::empty()
    } else {
        str_escaped(s.drop_last()) + str_escaped_char(s.last())
    }
}

/// std's `Debug` for `str`: the quoted, escaped form of the text; plain text is only
/// put between double quotes, and in printable ASCII text only backslashes and double
/// quotes are escaped, each by a backslash.
#[verifier::external_body]
fn str_debug(s: &str) -> (r: String)
    ensures
        r@ == str_debug_text(s@),
        plain_text(s@) ==> r@ == quoted_text(s@),
        printable_ascii(s@) ==> r@ == quoted_text(str_escaped(s@)),
{
    format!("{:?}", s)
}

pub open spec fn bool_text(b: bool) -> Seq<char> {
    if b { "true"@ } else { "false"@ }
}

fn bool_to_text(b: bool) -> (r: String)
    ensures
        r@ == bool_text(b),
{
    if b { owned("true") } else { owned("false") }
}

impl Args {
    pub open spec fn spec_project_root(&self, current_dir: Seq<char>) -> Seq<char> {
        match self.project_root {
            Some(p) => p@,
            None => current_dir,
        }
    }

    pub open spec fn spec_data_path(&self, current_dir: Seq<char>) -> Seq<char> {
        spec_join(self.spec_project_root(current_dir), self.data_relative_path@)
    }

    pub open spec fn spec_raw_data_path(&self, current_dir: Seq<char>) -> Seq<char> {
        spec_join(self.spec_data_path(current_dir), self.raw_data_folder_name@)
    }

    /// The configured project root, or `current_dir` when none was given.
    pub fn get_project_root(&self, current_dir: &str) -> (r: String)
        ensures
            r@ == self.spec_project_root(current_dir@),
    {
        match &self.project_root {
            Some(p) => p.clone(),
            None => owned(current_dir),
        }
    }

    /// The data directory: the data relative path joined onto the project root. It holds
    /// the `raw/` and `large/` directories of the census datasets.
    pub fn get_data_path(&self, current_dir: &str) -> (r: String)
        ensures
            r@ == self.spec_data_path(current_dir@),
    {
        let root = self.get_project_root(current_dir);
        join_path(root.as_str(), self.data_relative_path.as_str())
    }

    /// The raw data directory, where the original sample is stored before expansion.
    pub fn get_raw_data_path(&self, current_dir: &str) -> (r: String)
        ensures
            r@ == self.spec_raw_data_path(current_dir@),
    {
        let data = self.get_data_path(current_dir);
        join_path(data.as_str(), self.raw_data_folder_name.as_str())
    }

    /// `root, data, raw, delete_table, delete_bucket`: each path in its debug form, the
    /// root being the debug form of the debug text of the root path (or of `None`).
    pub open spec fn spec_display(&self) -> Seq<char> {
        let root = match self.project_root {
            Some(p) => path_debug_text(p@),
            None => "None"@,
        };
        str_debug_text(root) + ", "@ + path_debug_text(self.data_relative_path@) + ", "@
            + path_debug_text(self.raw_data_folder_name@) + ", "@ + bool_text(self.delete_table)
            + ", "@ + bool_text(self.delete_bucket)
    }

    /// The one-line description of these arguments.
    pub fn to_display_string(&self) -> (r: String)
        ensures
            r@ == self.spec_display(),
            self.plain_paths() ==> r@ == self.spec_display_plain(),
    {
        let root = match &self.project_root {
            Some(p) => path_debug(p.as_str()),
            None => owned("None"),
        };
        proof {
            if self.plain_paths() {
                match &self.project_root {
                    Some(p) => lemma_debug_of_quoted(p@),
                    None => {
                        reveal_strlit("None");
                        reveal_strlit("\"None\"");
                        assert(plain_text(root@));
                        assert(quoted_text(root@) =~= "\"None\""@);
                    },
                }
            }
        }
        let mut s = str_debug(root.as_str());
        s.append(", ");
        let d = path_debug(self.data_relative_path.as_str());
        s.append(d.as_str());
        s.append(", ");
        let r = path_debug(self.raw_data_folder_name.as_str());
        s.append(r.as_str());
        s.append(", ");
        let t = bool_to_text(self.delete_table);
        s.append(t.as_str());
        s.append(", ");
        let b = bool_to_text(self.delete_bucket);
        s.append(b.as_str());
        s
    }
}

impl Args {
    /// The derived debug form: `Args { field: value, ... }`, paths in their debug form.
    pub open spec fn spec_debug(&self) -> Seq<char> {
        let root = match self.project_root {
            Some(p) => "Some("@ + path_debug_text(p@) + ")"@,
            None => "None"@,
        };
        "Args { project_root: "@ + root + ", data_relative_path: "@ + path_debug_text(self.data_relative_path@)
            + ", raw_data_folder_name: "@ + path_debug_text(self.raw_data_folder_name@) + ", delete_table: "@
            + bool_text(self.delete_table) + ", delete_bucket: "@ + bool_text(self.delete_bucket) + ", load_store: "@
            + self.load_store.spec_name() + " }"@
    }

    /// The arguments in their debug form, field by field.
    pub fn debug_text(&self) -> (r: String)
        ensures
            r@ == self.spec_debug(),
            self.plain_paths() ==> r@ == self.spec_debug_plain(),
    {
        let mut s = owned("Args { project_root: ");
        match &self.project_root {
            Some(p) => {
                s.append("Some(");
                let d = path_debug(p.as_str());
                s.append(d.as_str());
                s.append(")");
            },
            None => s.append("None"),
        }
        s.append(", data_relative_path: ");
        let d = path_debug(self.data_relative_path.as_str());
        s.append(d.as_str());
        s.append(", raw_data_folder_name: ");
        let r = path_debug(self.raw_data_folder_name.as_str());
        s.append(r.as_str());
        s.append(", delete_table: ");
        let t = bool_to_text(self.delete_table);
        s.append(t.as_str());
        s.append(", delete_bucket: ");
        let b = bool_to_text(self.delete_bucket);
        s.append(b.as_str());
        s.append(", load_store: ");
        let l = self.load_store.name();
        s.append(l.as_str());
        s.append(" }");
        s
    }
}

proof fn lemma_str_escaped_concat(a: Seq<char>, b: Seq<char>)
    ensures
        str_escaped(a + b) == str_escaped(a) + str_escaped(b),
    decreases b.len(),
{
    if b.len() == 0 {
        assert(a + b =~= a);
        assert(str_escaped(a) + str_escaped(b) =~= str_escaped(a));
    } else {
        lemma_str_escaped_concat(a, b.drop_last());
        assert((a + b).drop_last() =~= a + b.drop_last());
        assert((a + b).last() == b.last());
        assert(str_escaped(a) + str_escaped(b) =~= str_escaped(a) + str_escaped(b.drop_last()) + str_escaped_char(b.last()));
    }
}

proof fn lemma_str_escaped_plain(s: Seq<char>)
    requires
        plain_text(s),
    ensures
        str_escaped(s) == s,
    decreases s.len(),
{
    if s.len() > 0 {
        assert forall|i: int| 0 <= i < s.drop_last().len() implies {
            let c = #[trigger] s.drop_last()[i];
            32 <= c as int <= 126 && c != '\\' && c != '"' && c != '\''
        } by {
            assert(s.drop_last()[i] == s[i]);
        }
        lemma_str_escaped_plain(s.drop_last());
        assert(s[s.len() - 1] == s.last());
        assert(s.drop_last() + seq![s.last()] =~= s);
    }
}

/// The debug form of a string holding the debug form of a plain path: the path between
/// escaped double quotes, all between double quotes.
proof fn lemma_debug_of_quoted(p: Seq<char>)
    requires
        plain_text(p),
    ensures
        printable_ascii(quoted_text(p)),
        quoted_text(str_escaped(quoted_text(p))) == seq!['"', '\\', '"'] + p + seq!['\\', '"', '"'],
{
    let q = quoted_text(p);
    assert forall|i: int| 0 <= i < q.len() implies 32 <= #[trigger] q[i] as int <= 126 by {
        if 0 < i < q.len() - 1 {
            assert(q[i] == p[i - 1]);
        }
    }
    lemma_str_escaped_concat(seq!['"'] + p, seq!['"']);
    lemma_str_escaped_concat(seq!['"'], p);
    lemma_str_escaped_plain(p);
    assert(seq!['"'].drop_last() =~= Seq::<char>::empty());
    assert(str_escaped(Seq::<char>::empty()) == Seq::<char>::empty());
    assert(str_escaped(seq!['"']) == str_escaped(Seq::<char>::empty()) + str_escaped_char('"'));
    assert(str_escaped(seq!['"']) =~= seq!['\\', '"']);
    assert(quoted_text(str_escaped(q)) =~= seq!['"', '\\', '"'] + p + seq!['\\', '"', '"']);
}

impl Args {
    /// Every path of the arguments is plain text.
    pub open spec fn plain_paths(&self) -> bool {
        &&& plain_text(self.data_relative_path@)
        &&& plain_text(self.raw_data_folder_name@)
        &&& (self.project_root matches Some(p) ==> plain_text(p@))
    }

    /// The one-line description when every path is plain text: each path between double
    /// quotes, the root path between escaped double quotes too.
    pub open spec fn spec_display_plain(&self) -> Seq<char> {
        let root = match self.project_root {
            Some(p) => seq!['"', '\\', '"'] + p@ + seq!['\\', '"', '"'],
            None => "\"None\""@,
        };
        root + ", "@ + quoted_text(self.data_relative_path@) + ", "@ + quoted_text(self.raw_data_folder_name@)
            + ", "@ + bool_text(self.delete_table) + ", "@ + bool_text(self.delete_bucket)
    }

    /// The debug form when every path is plain text: each path between double quotes.
    pub open spec fn spec_debug_plain(&self) -> Seq<char> {
        let root = match self.project_root {
            Some(p) => "Some("@ + quoted_text(p@) + ")"@,
            None => "None"@,
        };
        "Args { project_root: "@ + root + ", data_relative_path: "@ + quoted_text(self.data_relative_path@)
            + ", raw_data_folder_name: "@ + quoted_text(self.raw_data_folder_name@) + ", delete_table: "@
            + bool_text(self.delete_table) + ", delete_bucket: "@ + bool_text(self.delete_bucket) + ", load_store: "@
            + self.load_store.spec_name() + " }"@
    }
}

} // verus!
