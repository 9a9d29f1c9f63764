//! The older store: a plain list of scripts, each with a numeric
//! identifier and a description.

use vstd::prelude::*;

use crate::utils::{local_file_path, paths_view};

verus! {

/// A script as the older store keeps it.
#[derive(Debug)]
pub struct StoredScript {
    pub id: i32,
    pub description: String,
    pub name: String,
    pub path: String,
}

/// The mathematical value of a [`StoredScript`] of the older store.
pub struct ListedScriptView {
    pub id: i32,
    pub description: Seq<char>,
    pub name: Seq<char>,
    pub path: Seq<char>,
}

impl View for StoredScript {
    type V = ListedScriptView;

    open spec fn view(&self) -> ListedScriptView {
        ListedScriptView {
            id: self.id,
            description: self.description@,
            name: self.name@,
            path: self.path@,
        }
    }
}

/// The views of a list of scripts of the older store.
pub open spec fn listed_view(v: Seq<StoredScript>) -> Seq<ListedScriptView> {
    v.map_values(|s: StoredScript| s@)
}

/// The name of the older store's file in the local data directory.
pub open spec fn storage_file_name() -> Seq<char> {
    "scriptboard.storage.json"@
}

/// The path of the older store's file: `scriptboard.storage.json` in the
/// local data directory, given by its components.
pub fn get_file_storage_path(local_data_dir: Vec<String>) -> (r: Vec<String>)
    ensures
        paths_view(r@) == paths_view(local_data_dir@).push(storage_file_name()),
{
    local_file_path(local_data_dir, "scriptboard.storage.json")
}

/// Adds `new_script` after the scripts already stored.
pub fn store_script(scripts: &mut Vec<StoredScript>, new_script: StoredScript)
    ensures
        listed_view(final(scripts)@) == listed_view(old(scripts)@).push(new_script@),
{
    let ghost new_view = new_script@;
    scripts.push(new_script);
    assert(listed_view(scripts@) =~= listed_view(old(scripts)@).push(new_view));
}

/// Whether a stored script keeps an identifier other than `script_id`.
pub open spec fn other_id(script_id: i32) -> spec_fn(ListedScriptView) -> bool {
    |s: ListedScriptView| s.id != script_id
}

/// The stored scripts without those whose identifier is `script_id`; the
/// others keep their order.
pub fn remove_script(scripts: Vec<StoredScript>, script_id: i32) -> (r: Vec<StoredScript>)
    ensures
        listed_view(r@) == listed_view(scripts@).filter(other_id(script_id)),
{
    let mut kept: Vec<StoredScript> = Vec::new();
    let mut rest = scripts;
    let ghost all = listed_view(rest@);
    // Popping from the back twice hands the scripts out front first.
    let mut reversed: Vec<StoredScript> = Vec::new();
    while rest.len() > 0
        invariant
            listed_view(rest@) + listed_view(reversed@).reverse() == all,
        decreases rest.len(),
    {
        let ghost before_rest = listed_view(rest@);
        let ghost before_rev = listed_view(reversed@);
        let s = rest.pop().unwrap();
        let ghost sv = s@;
        reversed.push(s);
        proof {
            assert(listed_view(reversed@) =~= before_rev.push(sv));
            assert(listed_view(rest@) =~= before_rest.drop_last());
            assert(before_rest =~= before_rest.drop_last().push(sv));
            assert(before_rev.push(sv).reverse() =~= seq![sv] + before_rev.reverse());
            assert(listed_view(rest@) + listed_view(reversed@).reverse() =~= before_rest + before_rev.reverse());
        }
    }
    assert(listed_view(reversed@).reverse() =~= all);
    while reversed.len() > 0
        invariant
            listed_view(kept@) + listed_view(reversed@).reverse().filter(other_id(script_id))
                == all.filter(other_id(script_id)),
        decreases reversed.len(),
    {
        let ghost before_rev = listed_view(reversed@);
        let ghost before_kept = listed_view(kept@);
        let s = reversed.pop().unwrap();
        let ghost sv = s@;
        proof {
            assert(before_rev =~= listed_view(reversed@).push(sv));
            assert(before_rev.reverse() =~= seq![sv] + listed_view(reversed@).reverse());
            Seq::filter_distributes_over_add(seq![sv], listed_view(reversed@).reverse(), other_id(script_id));
            reveal(Seq::filter);
            assert(Seq::<ListedScriptView>::empty().filter(other_id(script_id)) =~= Seq::<ListedScriptView>::empty());
            assert(seq![sv].drop_last() =~= Seq::<ListedScriptView>::empty());
        }
        if s.id != script_id {
            kept.push(s);
            proof {
                assert(listed_view(kept@) =~= before_kept.push(sv));
                assert(seq![sv].filter(other_id(script_id)) =~= seq![sv]);
                assert(before_kept.push(sv) + listed_view(reversed@).reverse().filter(other_id(script_id))
                    =~= before_kept + (seq![sv] + listed_view(reversed@).reverse().filter(other_id(script_id))));
            }
        } else {
            proof {
                assert(seq![sv].filter(other_id(script_id)) =~= Seq::<ListedScriptView>::empty());
                assert(Seq::<ListedScriptView>::empty() + listed_view(reversed@).reverse().filter(other_id(script_id))
                    =~= listed_view(reversed@).reverse().filter(other_id(script_id)));
            }
        }
    }
    assert(listed_view(reversed@).reverse() =~= Seq::<ListedScriptView>::empty());
    proof {
        reveal(Seq::filter);
    }
    assert(listed_view(kept@) =~= all.filter(other_id(script_id)));
    kept
}

/// After removing the scripts with identifier `script_id`, none is left,
/// and every other script is still there.
pub proof fn lemma_remove_drops_only_that_id(scripts: Seq<ListedScriptView>, script_id: i32)
    ensures
        forall|k: int| 0 <= k < scripts.filter(other_id(script_id)).len()
            ==> (#[trigger] scripts.filter(other_id(script_id))[k]).id != script_id,
        forall|k: int| 0 <= k < scripts.len() && (#[trigger] scripts[k]).id != script_id
            ==> scripts.filter(other_id(script_id)).contains(scripts[k]),
{
    broadcast use Seq::lemma_filter_pred, Seq::lemma_filter_contains;
    assert forall|k: int| 0 <= k < scripts.filter(other_id(script_id)).len()
        implies (#[trigger] scripts.filter(other_id(script_id))[k]).id != script_id by {
        scripts.lemma_filter_pred(other_id(script_id), k);
    }
    assert forall|k: int| 0 <= k < scripts.len() && (#[trigger] scripts[k]).id != script_id
        implies scripts.filter(other_id(script_id)).contains(scripts[k]) by {
        scripts.lemma_filter_contains(other_id(script_id), k);
    }
}

} // verus!
