//! The saved project records: their file names and the order in which the
//! project list shows them.

use vstd::prelude::*;
use vstd::string::*;
use crate::config::{alphanumeric_flags, sanitize, sanitized_with, ConfigView, ProjectConfig};
use crate::text::{chars_of, concat2};

verus! {

/// The file a project's record is saved in: its sanitized name with the
/// `.json` extension.
pub open spec fn project_file_view(name: Seq<char>) -> Seq<char> {
    sanitized_with(name, alphanumeric_flags(name)) + ".json"@
}

/// The file a project's record is saved in.
pub fn project_file_name(name: &str) -> (r: String)
    ensures
        r@ == project_file_view(name@),
{
    let s = sanitize(name);
    concat2(s.as_str(), ".json")
}

/// Whether `a` comes no later than `b` in the order of `String::cmp`:
/// character by character, a prefix first.
pub open spec fn name_le(a: Seq<char>, b: Seq<char>) -> bool
    decreases a.len(),
{
    if a.len() == 0 {
        true
    } else if b.len() == 0 {
        false
    } else if a[0] != b[0] {
        (a[0] as int) < (b[0] as int)
    } else {
        name_le(a.drop_first(), b.drop_first())
    }
}

/// Any two names are ordered one way or the other.
pub proof fn lemma_name_le_total(a: Seq<char>, b: Seq<char>)
    ensures
        name_le(a, b) || name_le(b, a),
    decreases a.len(),
{
    if a.len() > 0 && b.len() > 0 && a[0] == b[0] {
        lemma_name_le_total(a.drop_first(), b.drop_first());
    }
}

/// The order of names is transitive.
pub proof fn lemma_name_le_trans(a: Seq<char>, b: Seq<char>, c: Seq<char>)
    requires
        name_le(a, b),
        name_le(b, c),
    ensures
        name_le(a, c),
    decreases a.len(),
{
    if a.len() > 0 && b.len() > 0 && c.len() > 0 && a[0] == b[0] && b[0] == c[0] {
        lemma_name_le_trans(a.drop_first(), b.drop_first(), c.drop_first());
    }
}

/// Whether `a` comes no later than `b`.
pub fn name_le_exec(a: &str, b: &str) -> (r: bool)
    ensures
        r == name_le(a@, b@),
{
    let av = chars_of(a);
    let bv = chars_of(b);
    let mut i: usize = 0;
    assert(a@.skip(0) =~= a@);
    assert(b@.skip(0) =~= b@);
    while i < av.len() && i < bv.len() && av[i] == bv[i]
        invariant
            av@ == a@,
            bv@ == b@,
            i <= av@.len(),
            i <= bv@.len(),
            name_le(a@, b@) == name_le(a@.skip(i as int), b@.skip(i as int)),
        decreases av@.len() - i,
    {
        assert(a@.skip(i as int).drop_first() =~= a@.skip(i + 1));
        assert(b@.skip(i as int).drop_first() =~= b@.skip(i + 1));
        i += 1;
    }
    if i == av.len() {
        true
    } else if i == bv.len() {
        false
    } else {
        av[i] < bv[i]
    }
}

/// The views of a list of project records.
pub open spec fn config_views(v: Seq<ProjectConfig>) -> Seq<ConfigView> {
    v.map_values(|c: ProjectConfig| c@)
}

/// Whether the records are in the order of their names.
pub open spec fn sorted_by_name(v: Seq<ConfigView>) -> bool {
    forall|i: int, j: int| 0 <= i < j < v.len() ==> name_le(#[trigger] v[i].project_name, #[trigger] v[j].project_name)
}

/// The project records in the order of their names, as the project list
/// shows them: the same records, sorted.
pub fn sort_projects(projects: Vec<ProjectConfig>) -> (r: Vec<ProjectConfig>)
    ensures
        config_views(r@).to_multiset() == config_views(projects@).to_multiset(),
        sorted_by_name(config_views(r@)),
        r@.len() == projects@.len(),
        forall|c: ConfigView| #[trigger] config_views(r@).contains(c) <==> config_views(projects@).contains(c),
{
    broadcast use vstd::seq_lib::group_to_multiset_ensures;
    let ghost input = config_views(projects@);
    let mut rest = projects;
    let mut r: Vec<ProjectConfig> = Vec::new();
    let ghost mut taken: int = 0;
    assert(input.skip(0) =~= input);
    assert(config_views(r@) =~= input.take(0));
    while rest.len() > 0
        invariant
            0 <= taken <= input.len(),
            config_views(rest@) == input.skip(taken),
            config_views(r@).to_multiset() == input.take(taken).to_multiset(),
            sorted_by_name(config_views(r@)),
        decreases rest@.len(),
    {
        let ghost old_r = config_views(r@);
        let ghost old_rest = rest@;
        let x = rest.remove(0);
        proof {
            assert(config_views(old_rest).len() == old_rest.len());
            assert(taken < input.len());
            assert(config_views(old_rest)[0] == x@);
            assert(input.skip(taken)[0] == x@);
            assert(input.skip(taken)[0] == input[taken]);
            assert(rest@ =~= old_rest.subrange(1, old_rest.len() as int));
            assert forall|k: int| 0 <= k < rest@.len() implies config_views(rest@)[k] == input.skip(
                taken + 1,
            )[k] by {
                assert(rest@[k] == old_rest[k + 1]);
                assert(config_views(old_rest)[k + 1] == input.skip(taken)[k + 1]);
            }
            assert(config_views(rest@) =~= input.skip(taken + 1));
            assert(input.take(taken + 1) =~= input.take(taken).push(x@));
        }
        // the first record whose name comes strictly after x's
        let mut pos: usize = 0;
        while pos < r.len() && name_le_exec(r[pos].project_name.as_str(), x.project_name.as_str())
            invariant
                pos <= r@.len(),
                config_views(r@) == old_r,
                forall|k: int| 0 <= k < pos ==> name_le(#[trigger] old_r[k].project_name, x@.project_name),
            decreases r@.len() - pos,
        {
            pos += 1;
        }
        proof {
            if pos < r@.len() {
                assert(!name_le(old_r[pos as int].project_name, x@.project_name));
                lemma_name_le_total(old_r[pos as int].project_name, x@.project_name);
            }
        }
        let ghost new_r = old_r.insert(pos as int, x@);
        r.insert(pos, x);
        proof {
            assert(config_views(r@) =~= new_r);
            vstd::seq_lib::to_multiset_insert(old_r, pos as int, x@);
            assert forall|i: int, j: int| 0 <= i < j < new_r.len() implies name_le(
                #[trigger] new_r[i].project_name,
                #[trigger] new_r[j].project_name,
            ) by {
                if j < pos {
                    assert(new_r[i] == old_r[i] && new_r[j] == old_r[j]);
                } else if j == pos {
                    assert(new_r[i] == old_r[i]);
                } else if i == pos {
                    assert(new_r[j] == old_r[j - 1]);
                    assert(pos < old_r.len());
                    if pos < j - 1 {
                        assert(name_le(old_r[pos as int].project_name, old_r[j - 1].project_name));
                        lemma_name_le_trans(
                            x@.project_name,
                            old_r[pos as int].project_name,
                            old_r[j - 1].project_name,
                        );
                    }
                } else if i < pos {
                    assert(new_r[i] == old_r[i] && new_r[j] == old_r[j - 1]);
                } else {
                    assert(new_r[i] == old_r[i - 1] && new_r[j] == old_r[j - 1]);
                }
            }
        }
        proof {
            vstd::seq_lib::to_multiset_build(input.take(taken), x@);
            assert(config_views(r@).to_multiset() == input.take(taken + 1).to_multiset());
            taken = taken + 1;
        }
    }
    proof {
        assert(input.take(taken) =~= input);
        assert forall|c: ConfigView| #[trigger] config_views(r@).contains(c) <==> input.contains(c) by {
            vstd::seq_lib::to_multiset_contains(config_views(r@), c);
            vstd::seq_lib::to_multiset_contains(input, c);
        }
        vstd::seq_lib::to_multiset_len(config_views(r@));
        vstd::seq_lib::to_multiset_len(input);
    }
    r
}

} // verus!
