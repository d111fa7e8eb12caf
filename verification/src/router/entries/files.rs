//! Files of entries on disk: where a file entry's bytes are kept and where
//! they go while marked for removal, and the parameters of a file's media
//! type as they are stored.

use vstd::prelude::*;
use crate::db::ids::FileEntryId;
use crate::path::{join_path, spec_join_path};
use crate::text::{push_char, push_signed_decimal, push_str, spec_join, spec_signed_decimal};

verus! {

/// the name of a file entry's bytes in the files directory
pub open spec fn spec_file_name(id: int) -> Seq<char> {
    spec_signed_decimal(id) + ".file"@
}

/// the name a file entry's bytes take while marked for removal
pub open spec fn spec_mark_name(id: int) -> Seq<char> {
    spec_signed_decimal(id) + ".file.rm"@
}

fn file_name(id: &FileEntryId, mark: bool) -> (rtn: String)
    ensures
        rtn@ == (if mark { spec_mark_name(id.value() as int) } else { spec_file_name(id.value() as int) }),
{
    let mut rtn = String::new();
    push_signed_decimal(&mut rtn, *id.inner());
    if mark {
        push_str(&mut rtn, ".file.rm");
    } else {
        push_str(&mut rtn, ".file");
    }
    proof {
        if mark {
            assert(rtn@ =~= spec_mark_name(id.value() as int));
        } else {
            assert(rtn@ =~= spec_file_name(id.value() as int));
        }
    }
    rtn
}

/// for each file entry, in order, the path its bytes are moved to when it
/// is marked for removal and the path they are kept at
pub fn mark_remove_paths(files_dir: &str, ids: &Vec<FileEntryId>) -> (rtn: Vec<(String, String)>)
    ensures
        rtn.len() == ids.len(),
        forall|i: int|
            0 <= i < ids.len() ==> {
                &&& (#[trigger] rtn[i]).0@ == spec_join_path(files_dir@, spec_mark_name(ids[i].value() as int))
                &&& rtn[i].1@ == spec_join_path(files_dir@, spec_file_name(ids[i].value() as int))
            },
{
    let mut rtn: Vec<(String, String)> = Vec::new();
    let mut i: usize = 0;
    while i < ids.len()
        invariant
            i <= ids.len(),
            rtn.len() == i,
            forall|k: int|
                0 <= k < i ==> {
                    &&& (#[trigger] rtn[k]).0@ == spec_join_path(files_dir@, spec_mark_name(ids[k].value() as int))
                    &&& rtn[k].1@ == spec_join_path(files_dir@, spec_file_name(ids[k].value() as int))
                },
        decreases ids.len() - i,
    {
        let mark_name = file_name(&ids[i], true);
        let curr_name = file_name(&ids[i], false);
        let mark = join_path(files_dir, mark_name.as_str());
        let curr = join_path(files_dir, curr_name.as_str());
        rtn.push((mark, curr));
        i = i + 1;
    }
    rtn
}

/// a parameter of a media type as it is stored: `key=value`
pub open spec fn spec_param_text(param: (Seq<char>, Seq<char>)) -> Seq<char> {
    param.0 + "="@ + param.1
}

/// the views of the parameters
pub open spec fn param_views(params: Seq<(String, String)>) -> Seq<(Seq<char>, Seq<char>)> {
    params.map_values(|p: (String, String)| (p.0@, p.1@))
}

/// the parameters of a media type as they are stored: each as `key=value`,
/// joined by `;`
pub open spec fn spec_params_text(params: Seq<(Seq<char>, Seq<char>)>) -> Seq<char> {
    spec_join(params.map_values(|p: (Seq<char>, Seq<char>)| spec_param_text(p)), ';')
}

/// the parameters of a media type as they are stored, or none when it has
/// none
pub fn mime_params_text(params: &Vec<(String, String)>) -> (rtn: Option<String>)
    ensures
        params.len() == 0 <==> rtn is None,
        rtn matches Some(t) ==> t@ == spec_params_text(param_views(params@)),
{
    if params.len() == 0 {
        return None;
    }
    let ghost views = param_views(params@);
    let ghost pieces = views.map_values(|p: (Seq<char>, Seq<char>)| spec_param_text(p));
    let mut rtn = String::new();
    let mut i: usize = 0;
    while i < params.len()
        invariant
            i <= params.len(),
            views == param_views(params@),
            pieces == views.map_values(|p: (Seq<char>, Seq<char>)| spec_param_text(p)),
            rtn@ == spec_join(pieces.take(i as int), ';'),
        decreases params.len() - i,
    {
        let ghost before = rtn@;
        if i > 0 {
            push_char(&mut rtn, ';');
        }
        let ghost mid = rtn@;
        push_str(&mut rtn, params[i].0.as_str());
        push_char(&mut rtn, '=');
        push_str(&mut rtn, params[i].1.as_str());
        proof {
            reveal_strlit("=");
            let next = pieces.take(i as int + 1);
            assert(next.drop_last() =~= pieces.take(i as int));
            assert(views[i as int] == (params@[i as int].0@, params@[i as int].1@));
            assert(next.last() == spec_param_text(views[i as int]));
            assert(rtn@ =~= mid + spec_param_text(views[i as int]));
            if i > 0 {
                assert(mid =~= before.push(';'));
                assert(rtn@ =~= spec_join(next.drop_last(), ';').push(';') + next.last());
            } else {
                assert(rtn@ =~= next[0]);
            }
        }
        i = i + 1;
    }
    proof {
        assert(pieces.take(params.len() as int) =~= pieces);
    }
    Some(rtn)
}

} // verus!
