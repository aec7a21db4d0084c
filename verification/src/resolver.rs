use vstd::prelude::*;
use vstd::string::{StrSliceExecFns, StringExecFns};
use crate::group::{ByGroup, ByGroupView};
use crate::manifest::{
    ExpressionReference, ExpressionReferenceView, FileReferences, FileReferencesView,
    MotionReference, MotionReferenceView,
};

verus! {

/// A reference of a manifest, joined onto the directory that holds the
/// manifest. Paths are joined with `/` on every platform. A reference that
/// begins with `/` stands for itself, and so does any reference where the
/// directory has no name.
pub open spec fn joined_path(base: Seq<char>, relative: Seq<char>) -> Seq<char> {
    if relative.len() > 0 && relative[0] == '/' {
        relative
    } else if base.len() == 0 {
        relative
    } else if base.last() == '/' {
        base + relative
    } else {
        base + seq!['/'] + relative
    }
}

/// A path that may not be there, joined onto the directory.
pub open spec fn joined_option(base: Seq<char>, relative: Option<Seq<char>>) -> Option<Seq<char>> {
    match relative {
        Some(path) => Some(joined_path(base, path)),
        None => None,
    }
}

/// The files of the declared expressions, each joined onto the directory.
pub open spec fn expression_paths(base: Seq<char>, references: Seq<ExpressionReferenceView>) -> Seq<
    Seq<char>,
> {
    Seq::new(references.len(), |i: int| joined_path(base, references[i].file))
}

/// The files of the motions of a group, each joined onto the directory.
pub open spec fn motion_paths(base: Seq<char>, references: Seq<MotionReferenceView>) -> Seq<
    Seq<char>,
> {
    Seq::new(references.len(), |i: int| joined_path(base, references[i].file))
}

/// The files that a load asks for: one path for each reference of the
/// manifest, in the place of the reference.
#[derive(Clone, Debug, PartialEq, Eq)]
pub struct Requests {
    pub moc: Option<String>,
    pub expressions: Vec<String>,
    pub pose: Option<String>,
    pub physics: Option<String>,
    pub user_data: Option<String>,
    pub motions: ByGroup<Vec<String>>,
}

pub ghost struct RequestsView {
    pub moc: Option<Seq<char>>,
    pub expressions: Seq<Seq<char>>,
    pub pose: Option<Seq<char>>,
    pub physics: Option<Seq<char>>,
    pub user_data: Option<Seq<char>>,
    pub motions: ByGroupView<Seq<Seq<char>>>,
}

impl DeepView for Requests {
    type V = RequestsView;

    open spec fn deep_view(&self) -> RequestsView {
        RequestsView {
            moc: self.moc.deep_view(),
            expressions: self.expressions.deep_view(),
            pose: self.pose.deep_view(),
            physics: self.physics.deep_view(),
            user_data: self.user_data.deep_view(),
            motions: self.motions.deep_view(),
        }
    }
}

/// The files to read for the references of a manifest that lies in `base`.
/// An optional file is asked for only where the manifest declares it.
pub open spec fn requests_of(base: Seq<char>, references: FileReferencesView) -> RequestsView {
    RequestsView {
        moc: joined_option(base, references.moc),
        expressions: expression_paths(base, references.expressions),
        pose: joined_option(base, references.pose),
        physics: joined_option(base, references.physics),
        user_data: joined_option(base, references.user_data),
        motions: ByGroupView {
            idle: motion_paths(base, references.motions.idle),
            tap_body: motion_paths(base, references.motions.tap_body),
            pinch_in: motion_paths(base, references.motions.pinch_in),
            pinch_out: motion_paths(base, references.motions.pinch_out),
            shake: motion_paths(base, references.motions.shake),
            flick_head: motion_paths(base, references.motions.flick_head),
        },
    }
}

/// Joins a reference of a manifest onto the directory that holds the
/// manifest.
pub fn resolve(base_dir: &str, relative_path: &str) -> (r: String)
    ensures
        r@ == joined_path(base_dir@, relative_path@),
{
    let base_len = base_dir.unicode_len();
    let relative_len = relative_path.unicode_len();
    if relative_len > 0 && relative_path.get_char(0) == '/' {
        return String::from_str(relative_path);
    }
    if base_len == 0 {
        return String::from_str(relative_path);
    }
    let mut out = String::from_str(base_dir);
    if base_dir.get_char(base_len - 1) != '/' {
        proof {
            reveal_strlit("/");
        }
        out.append("/");
    }
    out.append(relative_path);
    out
}

/// Joins a path that may not be there onto the directory.
pub fn resolve_option(base_dir: &str, relative_path: &Option<String>) -> (r: Option<String>)
    ensures
        r.deep_view() == joined_option(base_dir@, relative_path.deep_view()),
{
    match relative_path {
        Some(path) => Some(resolve(base_dir, path.as_str())),
        None => None,
    }
}

/// Joins the files of the declared expressions onto the directory.
pub fn resolve_expressions(base_dir: &str, references: &Vec<ExpressionReference>) -> (r: Vec<
    String,
>)
    ensures
        r.deep_view() == expression_paths(base_dir@, references.deep_view()),
{
    let mut out: Vec<String> = Vec::new();
    let mut i: usize = 0;
    while i < references.len()
        invariant
            i <= references.len(),
            out.len() == i,
            forall|k: int| 0 <= k < i ==>
                (#[trigger] out[k])@ == joined_path(base_dir@, references[k].file@),
        decreases references.len() - i,
    {
        out.push(resolve(base_dir, references[i].file.as_str()));
        i += 1;
    }
    out
}

/// Joins the files of the motions of a group onto the directory.
pub fn resolve_motions(base_dir: &str, references: &Vec<MotionReference>) -> (r: Vec<String>)
    ensures
        r.deep_view() == motion_paths(base_dir@, references.deep_view()),
{
    let mut out: Vec<String> = Vec::new();
    let mut i: usize = 0;
    while i < references.len()
        invariant
            i <= references.len(),
            out.len() == i,
            forall|k: int| 0 <= k < i ==>
                (#[trigger] out[k])@ == joined_path(base_dir@, references[k].file@),
        decreases references.len() - i,
    {
        out.push(resolve(base_dir, references[i].file.as_str()));
        i += 1;
    }
    out
}

/// Lists the files to read for the references of a manifest.
pub fn requests(base_dir: &str, references: &FileReferences) -> (r: Requests)
    ensures
        r.deep_view() == requests_of(base_dir@, references.deep_view()),
{
    Requests {
        moc: resolve_option(base_dir, &references.moc),
        expressions: resolve_expressions(base_dir, &references.expressions),
        pose: resolve_option(base_dir, &references.pose),
        physics: resolve_option(base_dir, &references.physics),
        user_data: resolve_option(base_dir, &references.user_data),
        motions: ByGroup {
            idle: resolve_motions(base_dir, &references.motions.idle),
            tap_body: resolve_motions(base_dir, &references.motions.tap_body),
            pinch_in: resolve_motions(base_dir, &references.motions.pinch_in),
            pinch_out: resolve_motions(base_dir, &references.motions.pinch_out),
            shake: resolve_motions(base_dir, &references.motions.shake),
            flick_head: resolve_motions(base_dir, &references.motions.flick_head),
        },
    }
}

} // verus!
