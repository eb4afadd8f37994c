//! What the tree of accounts and folders shows, and how it is gone through.

use vstd::prelude::*;

use crate::model::{Account, AccountId, Folder, FolderParent};
use crate::navigation::{
    account_branch, branch, edge_of, folder_id_of, lemma_branch_seen, lemma_unseen, moved_index,
    tree, tree_upto, unseen, NavigationItem,
};

verus! {

// ---------------------------------------------------------------------------
// Every folder is there
// ---------------------------------------------------------------------------

/// Whether a folder lies right in an account.
pub open spec fn lies_in_account(f: Folder, account: Seq<char>) -> bool {
    f.parent matches FolderParent::Account { account_id } && account_id@ == account
}

/// Whether a folder lies right in a folder with an id.
pub open spec fn lies_in_folder(f: Folder, id: Seq<char>) -> bool {
    f.parent matches FolderParent::Folder { folder_id } && folder_id@ == id
}

/// Whether the parents of a listed folder lead to an account, in at most `n` steps.
pub open spec fn leads_to(folders: Seq<Folder>, k: int, account: Seq<char>, n: nat) -> bool
    decreases n,
{
    0 <= k < folders.len() && (lies_in_account(folders[k], account) || (n > 0 && exists|j: int|
        0 <= j < folders.len() && lies_in_folder(folders[k], (#[trigger] folders[j]).id@)
            && leads_to(folders, j, account, (n - 1) as nat)))
}

/// Whether one of the lines is of a folder with an id.
pub open spec fn has_line(items: Seq<NavigationItem>, id: Seq<char>) -> bool {
    exists|p: int| 0 <= p < items.len() && folder_id_of(#[trigger] items[p]) == id
}

/// What has been seen behind a branch: all that lies right in its parent, and all that
/// lies in anything that was new; and what was new has a line.
spec fn complete(
    folders: Seq<Folder>,
    parent: FolderParent,
    seen: Set<Seq<char>>,
    i: int,
    items: Seq<NavigationItem>,
    after: Set<Seq<char>>,
) -> bool {
    &&& forall|k: int|
        i <= k < folders.len() && crate::model::parent_is((#[trigger] folders[k]).parent, parent)
            ==> after.contains(folders[k].id@)
    &&& forall|k: int, x: Seq<char>|
        0 <= k < folders.len() && #[trigger] after.contains(x) && !seen.contains(x)
            && lies_in_folder(#[trigger] folders[k], x) ==> after.contains(folders[k].id@)
    &&& forall|x: Seq<char>| #[trigger] after.contains(x) && !seen.contains(x) ==> has_line(items, x)
}

proof fn lemma_branch_is_complete(
    folders: Seq<Folder>,
    parent: FolderParent,
    account_id: AccountId,
    depth: nat,
    seen: Set<Seq<char>>,
    i: int,
)
    requires
        0 <= i,
    ensures
        complete(
            folders,
            parent,
            seen,
            i,
            branch(folders, parent, account_id, depth, seen, i).0,
            branch(folders, parent, account_id, depth, seen, i).1,
        ),
    decreases unseen(folders, seen), folders.len() - i,
{
    let all = branch(folders, parent, account_id, depth, seen, i);
    if i < folders.len() {
        let folder = folders[i];
        if !crate::model::parent_is(folder.parent, parent) || seen.contains(folder.id@) {
            lemma_branch_is_complete(folders, parent, account_id, depth, seen, i + 1);
            lemma_branch_seen(folders, parent, account_id, depth, seen, i + 1);
        } else {
            let with_this = seen.insert(folder.id@);
            lemma_unseen(folders, seen, with_this);
            assert(!seen.contains(folders[i].id@));
            let inside = FolderParent::Folder { folder_id: folder.id };
            let below = branch(folders, inside, account_id, depth + 1, with_this, 0);
            lemma_branch_is_complete(folders, inside, account_id, depth + 1, with_this, 0);
            lemma_branch_seen(folders, inside, account_id, depth + 1, with_this, 0);
            let after = with_this.union(below.1);
            lemma_unseen(folders, seen, after);
            let rest = branch(folders, parent, account_id, depth, after, i + 1);
            lemma_branch_is_complete(folders, parent, account_id, depth, after, i + 1);
            lemma_branch_seen(folders, parent, account_id, depth, after, i + 1);
            assert(after =~= below.1);
            let n = below.0.len() as int;
            assert forall|k: int|
                i <= k < folders.len() && crate::model::parent_is(
                    (#[trigger] folders[k]).parent,
                    parent,
                ) implies all.1.contains(folders[k].id@) by {
                if k == i {
                    assert(after.contains(folder.id@));
                }
            }
            assert forall|k: int, x: Seq<char>|
                0 <= k < folders.len() && #[trigger] all.1.contains(x) && !seen.contains(x)
                    && lies_in_folder(#[trigger] folders[k], x) implies all.1.contains(
                folders[k].id@,
            ) by {
                if !after.contains(x) {
                } else {
                    if x == folder.id@ {
                        assert(crate::model::parent_is(folders[k].parent, inside));
                    } else {
                        assert(!with_this.contains(x));
                        assert(below.1.contains(x));
                    }
                    assert(below.1.contains(folders[k].id@));
                    assert(after.contains(folders[k].id@));
                }
            }
            assert forall|x: Seq<char>| #[trigger] all.1.contains(x) && !seen.contains(x) implies
                has_line(all.0, x) by {
                if x == folder.id@ {
                    assert(folder_id_of(all.0[0]) == x);
                } else if after.contains(x) {
                    assert(below.1.contains(x) && !with_this.contains(x));
                    assert(has_line(below.0, x));
                    let p = choose|p: int|
                        0 <= p < below.0.len() && folder_id_of(#[trigger] below.0[p]) == x;
                    assert(all.0[p + 1] == below.0[p]);
                } else {
                    assert(has_line(rest.0, x));
                    let p = choose|p: int|
                        0 <= p < rest.0.len() && folder_id_of(#[trigger] rest.0[p]) == x;
                    assert(all.0[p + 1 + n] == rest.0[p]);
                }
            }
        }
    }
}

/// Every listed folder whose parents lead to an account has a line under that account.
pub proof fn law_every_folder_is_shown(
    folders: Seq<Folder>,
    account_id: AccountId,
    k: int,
    n: nat,
)
    requires
        leads_to(folders, k, account_id@, n),
    ensures
        has_line(account_branch(folders, account_id), folders[k].id@),
{
    let root = FolderParent::Account { account_id };
    let all = branch(folders, root, account_id, 0, Set::empty(), 0);
    lemma_branch_is_complete(folders, root, account_id, 0, Set::empty(), 0);
    lemma_led_is_seen(folders, account_id, k, n);
    assert(all.1.contains(folders[k].id@));
    assert(!Set::<Seq<char>>::empty().contains(folders[k].id@));
}

proof fn lemma_led_is_seen(folders: Seq<Folder>, account_id: AccountId, k: int, n: nat)
    requires
        leads_to(folders, k, account_id@, n),
    ensures
        branch(
            folders,
            FolderParent::Account { account_id },
            account_id,
            0,
            Set::empty(),
            0,
        ).1.contains(folders[k].id@),
    decreases n,
{
    reveal_with_fuel(leads_to, 2);
    let root = FolderParent::Account { account_id };
    let all = branch(folders, root, account_id, 0, Set::empty(), 0);
    lemma_branch_is_complete(folders, root, account_id, 0, Set::empty(), 0);
    if lies_in_account(folders[k], account_id@) {
        assert(crate::model::parent_is(folders[k].parent, root));
    } else {
        let j = choose|j: int|
            0 <= j < folders.len() && lies_in_folder(folders[k], (#[trigger] folders[j]).id@)
                && leads_to(folders, j, account_id@, (n - 1) as nat);
        lemma_led_is_seen(folders, account_id, j, (n - 1) as nat);
        assert(all.1.contains(folders[j].id@));
        assert(!Set::<Seq<char>>::empty().contains(folders[j].id@));
    }
}

// ---------------------------------------------------------------------------
// Every folder stands under its parent
// ---------------------------------------------------------------------------

/// How deep a line stands.
pub open spec fn depth_of(item: NavigationItem) -> int {
    match item {
        NavigationItem::Folder { depth, .. } => depth as int,
        NavigationItem::Account { .. } => -1,
    }
}

/// Whether a line shows a listed folder, by its id and its name.
pub open spec fn shows(item: NavigationItem, f: Folder) -> bool {
    item matches NavigationItem::Folder { id, name, .. } && id == f.id && name == f.name
}

/// Whether line `q` is the one that line `p` stands under: the last one before it that is
/// one level further out, with nothing but deeper lines between.
pub open spec fn stands_under(items: Seq<NavigationItem>, p: int, q: int) -> bool {
    &&& 0 <= q < p < items.len()
    &&& depth_of(items[q]) + 1 == depth_of(items[p])
    &&& forall|m: int| q < m < p ==> depth_of(#[trigger] items[m]) >= depth_of(items[p])
}

/// Whether a line shows a listed folder that lies in the folder of the line it stands
/// under.
pub open spec fn placed(items: Seq<NavigationItem>, folders: Seq<Folder>, p: int) -> bool {
    exists|q: int, k: int|
        stands_under(items, p, q) && 0 <= k < folders.len() && #[trigger] shows(
            items[p],
            folders[k],
        ) && lies_in_folder(folders[k], folder_id_of(#[trigger] items[q]))
}

/// Whether two lines show listed folders in the order of the list.
pub open spec fn in_list_order(
    items: Seq<NavigationItem>,
    folders: Seq<Folder>,
    p: int,
    q: int,
) -> bool {
    exists|j: int, k: int|
        0 <= j < k < folders.len() && #[trigger] shows(items[p], folders[j]) && #[trigger] shows(
            items[q],
            folders[k],
        )
}

/// Whether two lines stand next to each other at one level: none further out is between.
pub open spec fn siblings(items: Seq<NavigationItem>, p: int, q: int) -> bool {
    &&& 0 <= p < q < items.len()
    &&& depth_of(items[p]) == depth_of(items[q])
    &&& forall|m: int| p < m < q ==> depth_of(#[trigger] items[m]) >= depth_of(items[p])
}

/// Whether the line at a place shows a folder from position `i` on that lies right in
/// `parent`.
spec fn of_parent(item: NavigationItem, folders: Seq<Folder>, parent: FolderParent, i: int) -> bool {
    exists|k: int|
        i <= k < folders.len() && #[trigger] shows(item, folders[k]) && crate::model::parent_is(
            folders[k].parent,
            parent,
        )
}

spec fn well_placed(
    items: Seq<NavigationItem>,
    folders: Seq<Folder>,
    parent: FolderParent,
    depth: nat,
    i: int,
) -> bool {
    &&& items.len() > 0 ==> depth_of(items[0]) == depth
    &&& forall|p: int| 0 <= p < items.len() ==> depth_of(#[trigger] items[p]) >= depth
    &&& forall|p: int|
        0 <= p < items.len() && depth_of(#[trigger] items[p]) == depth ==> of_parent(
            items[p],
            folders,
            parent,
            i,
        )
    &&& forall|p: int|
        0 <= p < items.len() && depth_of(#[trigger] items[p]) > depth ==> placed(items, folders, p)
    &&& forall|p: int, q: int|
        #[trigger] siblings(items, p, q) ==> in_list_order(items, folders, p, q)
}

proof fn lemma_branch_is_well_placed(
    folders: Seq<Folder>,
    parent: FolderParent,
    account_id: AccountId,
    depth: nat,
    seen: Set<Seq<char>>,
    i: int,
)
    requires
        0 <= i,
        depth + unseen(folders, seen) <= usize::MAX,
    ensures
        well_placed(
            branch(folders, parent, account_id, depth, seen, i).0,
            folders,
            parent,
            depth,
            i,
        ),
    decreases unseen(folders, seen), folders.len() - i,
{
    let all = branch(folders, parent, account_id, depth, seen, i).0;
    if i < folders.len() {
        let folder = folders[i];
        if !crate::model::parent_is(folder.parent, parent) || seen.contains(folder.id@) {
            lemma_branch_is_well_placed(folders, parent, account_id, depth, seen, i + 1);
            assert forall|p: int|
                0 <= p < all.len() && depth_of(#[trigger] all[p]) == depth implies of_parent(
                all[p],
                folders,
                parent,
                i,
            ) by {
                assert(of_parent(all[p], folders, parent, i + 1));
            }
        } else {
            let with_this = seen.insert(folder.id@);
            lemma_unseen(folders, seen, with_this);
            assert(!seen.contains(folders[i].id@));
            let inside = FolderParent::Folder { folder_id: folder.id };
            let below = branch(folders, inside, account_id, depth + 1, with_this, 0);
            lemma_branch_is_well_placed(folders, inside, account_id, depth + 1, with_this, 0);
            let after = with_this.union(below.1);
            lemma_unseen(folders, seen, after);
            let rest = branch(folders, parent, account_id, depth, after, i + 1);
            lemma_branch_is_well_placed(folders, parent, account_id, depth, after, i + 1);
            let item = NavigationItem::Folder {
                id: folder.id,
                account_id,
                name: folder.name,
                depth: depth as usize,
            };
            assert(all == seq![item] + below.0 + rest.0);
            lemma_joined(folders, parent, depth, i, item, below.0, rest.0);
        }
    }
}

proof fn lemma_joined(
    folders: Seq<Folder>,
    parent: FolderParent,
    depth: nat,
    i: int,
    item: NavigationItem,
    below: Seq<NavigationItem>,
    rest: Seq<NavigationItem>,
)
    requires
        0 <= i < folders.len(),
        shows(item, folders[i]),
        depth_of(item) == depth,
        crate::model::parent_is(folders[i].parent, parent),
        well_placed(
            below,
            folders,
            FolderParent::Folder { folder_id: folders[i].id },
            depth + 1,
            0,
        ),
        well_placed(rest, folders, parent, depth, i + 1),
    ensures
        well_placed(seq![item] + below + rest, folders, parent, depth, i),
{
    let all = seq![item] + below + rest;
    let n = below.len() as int;
    let inside = FolderParent::Folder { folder_id: folders[i].id };
    assert forall|p: int| 0 <= p < all.len() implies depth_of(#[trigger] all[p]) >= depth by {
        if 0 < p <= n {
            assert(all[p] == below[p - 1]);
        } else if p > n {
            assert(all[p] == rest[p - 1 - n]);
        }
    }
    assert forall|p: int| 0 <= p < all.len() && depth_of(#[trigger] all[p]) == depth implies of_parent(
        all[p],
        folders,
        parent,
        i,
    ) by {
        if p == 0 {
            assert(shows(all[p], folders[i]));
        } else if p <= n {
            assert(all[p] == below[p - 1]);
        } else {
            assert(all[p] == rest[p - 1 - n]);
            assert(of_parent(rest[p - 1 - n], folders, parent, i + 1));
        }
    }
    assert forall|p: int| 0 <= p < all.len() && depth_of(#[trigger] all[p]) > depth implies placed(
        all,
        folders,
        p,
    ) by {
        if 0 < p <= n {
            assert(all[p] == below[p - 1]);
            if depth_of(all[p]) == depth + 1 {
                assert(of_parent(below[p - 1], folders, inside, 0));
                let k = choose|k: int|
                    0 <= k < folders.len() && #[trigger] shows(below[p - 1], folders[k])
                        && crate::model::parent_is(folders[k].parent, inside);
                assert(stands_under(all, p, 0)) by {
                    assert forall|m: int| 0 < m < p implies depth_of(#[trigger] all[m]) >= depth_of(
                        all[p],
                    ) by {
                        assert(all[m] == below[m - 1]);
                    }
                }
                assert(shows(all[p], folders[k]));
                assert(lies_in_folder(folders[k], folder_id_of(all[0])));
            } else {
                lemma_placed_shifts(below, all, folders, p - 1, 1);
            }
        } else if p > n {
            assert(all[p] == rest[p - 1 - n]);
            lemma_placed_shifts(rest, all, folders, p - 1 - n, 1 + n);
        }
    }
    assert forall|p: int, q: int| #[trigger] siblings(all, p, q) implies in_list_order(
        all,
        folders,
        p,
        q,
    ) by {
        if q <= n {
            assert(all[q] == below[q - 1]);
            if p > 0 {
                lemma_siblings_shift(below, all, folders, p - 1, q - 1, 1);
            }
        } else {
            assert(all[q] == rest[q - 1 - n]);
            if p > n {
                lemma_siblings_shift(rest, all, folders, p - 1 - n, q - 1 - n, 1 + n);
            } else {
                assert(all[1 + n] == rest[0]);
                if 0 < p {
                    assert(all[p] == below[p - 1]);
                    assert(depth_of(all[1 + n]) == depth);
                }
                assert(p == 0);
                assert(of_parent(rest[q - 1 - n], folders, parent, i + 1));
                let k = choose|k: int|
                    i + 1 <= k < folders.len() && #[trigger] shows(rest[q - 1 - n], folders[k])
                        && crate::model::parent_is(folders[k].parent, parent);
                assert(shows(all[p], folders[i]));
                assert(shows(all[q], folders[k]));
            }
        }
    }
}

/// A line that is placed among some lines is placed among more around them.
proof fn lemma_placed_shifts(
    part: Seq<NavigationItem>,
    all: Seq<NavigationItem>,
    folders: Seq<Folder>,
    p: int,
    shift: int,
)
    requires
        placed(part, folders, p),
        0 <= p < part.len(),
        0 <= shift,
        part.len() + shift <= all.len(),
        forall|m: int| 0 <= m < part.len() ==> all[m + shift] == #[trigger] part[m],
    ensures
        placed(all, folders, p + shift),
{
    let (q, k) = choose|q: int, k: int|
        stands_under(part, p, q) && 0 <= k < folders.len() && #[trigger] shows(part[p], folders[k])
            && lies_in_folder(folders[k], folder_id_of(#[trigger] part[q]));
    assert(all[q + shift] == part[q]);
    assert(all[p + shift] == part[p]);
    assert forall|m: int| q + shift < m < p + shift implies depth_of(#[trigger] all[m]) >= depth_of(
        all[p + shift],
    ) by {
        assert(all[m - shift + shift] == part[m - shift]);
    }
    assert(stands_under(all, p + shift, q + shift));
    assert(shows(all[p + shift], folders[k]));
    assert(lies_in_folder(folders[k], folder_id_of(all[q + shift])));
}

proof fn lemma_siblings_shift(
    part: Seq<NavigationItem>,
    all: Seq<NavigationItem>,
    folders: Seq<Folder>,
    p: int,
    q: int,
    shift: int,
)
    requires
        0 <= p < q < part.len(),
        0 <= shift,
        part.len() + shift <= all.len(),
        forall|m: int| 0 <= m < part.len() ==> all[m + shift] == #[trigger] part[m],
        siblings(all, p + shift, q + shift),
        forall|a: int, b: int|
            #[trigger] siblings(part, a, b) ==> in_list_order(part, folders, a, b),
    ensures
        in_list_order(all, folders, p + shift, q + shift),
{
    assert(all[p + shift] == part[p]);
    assert(all[q + shift] == part[q]);
    assert forall|m: int| p < m < q implies depth_of(#[trigger] part[m]) >= depth_of(part[p]) by {
        assert(all[m + shift] == part[m]);
    }
    assert(siblings(part, p, q));
    let (j, k) = choose|j: int, k: int|
        0 <= j < k < folders.len() && #[trigger] shows(part[p], folders[j]) && #[trigger] shows(
            part[q],
            folders[k],
        );
    assert(shows(all[p + shift], folders[j]));
    assert(shows(all[q + shift], folders[k]));
}

/// Under an account, a line at the outermost level shows a listed folder that lies right
/// in the account. Any other line shows a listed folder that lies in the folder of the
/// line it stands under, which is one level further out. Folders in one place stand in
/// the order of the list.
pub proof fn law_folders_stand_under_their_parents(folders: Seq<Folder>, account_id: AccountId)
    requires
        folders.len() <= usize::MAX,
    ensures
        ({
            let items = account_branch(folders, account_id);
            &&& forall|p: int|
                0 <= p < items.len() && depth_of(#[trigger] items[p]) == 0 ==> exists|k: int|
                    0 <= k < folders.len() && #[trigger] shows(items[p], folders[k])
                        && lies_in_account(folders[k], account_id@)
            &&& forall|p: int|
                0 <= p < items.len() && depth_of(#[trigger] items[p]) > 0 ==> placed(
                    items,
                    folders,
                    p,
                )
            &&& forall|p: int| 0 <= p < items.len() ==> depth_of(#[trigger] items[p]) >= 0
            &&& forall|p: int, q: int|
                #[trigger] siblings(items, p, q) ==> in_list_order(items, folders, p, q)
        }),
{
    let root = FolderParent::Account { account_id };
    lemma_unseen(folders, Set::empty(), Set::empty());
    lemma_branch_is_well_placed(folders, root, account_id, 0, Set::empty(), 0);
    let items = account_branch(folders, account_id);
    assert forall|p: int| 0 <= p < items.len() && depth_of(#[trigger] items[p]) == 0 implies exists|
        k: int,
    |
        0 <= k < folders.len() && #[trigger] shows(items[p], folders[k]) && lies_in_account(
            folders[k],
            account_id@,
        ) by {
        assert(of_parent(items[p], folders, root, 0));
        let k = choose|k: int|
            0 <= k < folders.len() && #[trigger] shows(items[p], folders[k])
                && crate::model::parent_is(folders[k].parent, root);
        assert(shows(items[p], folders[k]) && lies_in_account(folders[k], account_id@));
    }
}

// ---------------------------------------------------------------------------
// Accounts
// ---------------------------------------------------------------------------

proof fn lemma_tree_prefix(a: Seq<Account>, b: Seq<Account>, folders: Seq<Folder>, n: nat)
    requires
        n <= a.len(),
        n <= b.len(),
        forall|k: int| 0 <= k < n ==> a[k] == b[k],
    ensures
        tree_upto(a, folders, n) == tree_upto(b, folders, n),
    decreases n,
{
    if n > 0 {
        lemma_tree_prefix(a, b, folders, (n - 1) as nat);
    }
}

/// The accounts stand in the order of their list, each with its name, and each followed
/// by the lines of its own folders and nothing else.
pub proof fn law_accounts_stand_in_order(
    accounts: Seq<Account>,
    account: Account,
    folders: Seq<Folder>,
)
    ensures
        tree(Seq::<Account>::empty(), folders).len() == 0,
        ({
            let before = tree(accounts, folders);
            let all = tree(accounts.push(account), folders);
            let own = account_branch(folders, account.id);
            &&& all.len() == before.len() + 1 + own.len()
            &&& all.take(before.len() as int) == before
            &&& all[before.len() as int] == (NavigationItem::Account {
                id: account.id,
                name: account.name,
            })
            &&& all.skip(before.len() as int + 1) == own
        }),
{
    let before = tree(accounts, folders);
    let all = tree(accounts.push(account), folders);
    let own = account_branch(folders, account.id);
    lemma_tree_prefix(accounts, accounts.push(account), folders, accounts.len());
    assert(all.take(before.len() as int) =~= before);
    assert(all.skip(before.len() as int + 1) =~= own);
}

// ---------------------------------------------------------------------------
// Going through lists
// ---------------------------------------------------------------------------

/// A step in a list goes to the next or the one before, and stays at the ends; the edges
/// are the first and the last place.
pub proof fn law_steps_go_one_further(at: int, length: int)
    requires
        0 <= at < length,
    ensures
        at + 1 < length ==> moved_index(at, length, 1) == at + 1,
        at + 1 == length ==> moved_index(at, length, 1) == at,
        at > 0 ==> moved_index(at, length, -1) == at - 1,
        at == 0 ==> moved_index(at, length, -1) == 0,
        edge_of(length, false) == 0,
        edge_of(length, true) + 1 == length,
{
}

} // verus!
