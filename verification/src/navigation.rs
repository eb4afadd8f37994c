//! The tree of accounts and folders, as a list to move through.

use vstd::prelude::*;

use crate::model::{
    account_at, find_account, find_folder, folder_at, lemma_folder_at, parent_is, Account,
    AccountId, Folder, FolderId, FolderParent, NotesQuery,
};
use crate::session::SessionState;

verus! {

// ---------------------------------------------------------------------------
// Positions
// ---------------------------------------------------------------------------

/// The position of the first that fits, or the length where none does.
pub open spec fn first_index<A>(s: Seq<A>, fits: spec_fn(A) -> bool) -> nat
    decreases s.len(),
{
    if s.len() == 0 {
        0
    } else if fits(s[0]) {
        0
    } else {
        1 + first_index(s.drop_first(), fits)
    }
}

pub proof fn lemma_first_index<A>(s: Seq<A>, fits: spec_fn(A) -> bool, at: int)
    requires
        0 <= at <= s.len(),
        forall|i: int| 0 <= i < at ==> !fits(#[trigger] s[i]),
        at < s.len() ==> fits(s[at]),
    ensures
        first_index(s, fits) == at,
    decreases s.len(),
{
    if at > 0 {
        assert(!fits(s[0]));
        let t = s.drop_first();
        assert forall|i: int| 0 <= i < at - 1 implies !fits(#[trigger] t[i]) by {
            assert(t[i] == s[i + 1]);
        }
        lemma_first_index(t, fits, at - 1);
    }
}

pub proof fn lemma_first_index_fits<A>(s: Seq<A>, fits: spec_fn(A) -> bool)
    ensures
        first_index(s, fits) <= s.len(),
        first_index(s, fits) < s.len() ==> fits(s[first_index(s, fits) as int]),
        forall|i: int| 0 <= i < first_index(s, fits) ==> !fits(#[trigger] s[i]),
    decreases s.len(),
{
    if s.len() > 0 && !fits(s[0]) {
        let t = s.drop_first();
        lemma_first_index_fits(t, fits);
        assert forall|i: int| 0 <= i < first_index(s, fits) implies !fits(#[trigger] s[i]) by {
            if i > 0 {
                assert(t[i - 1] == s[i]);
            }
        }
    }
}

/// The position that is `delta` away in a list, within the list.
pub open spec fn moved_index(current: int, length: int, delta: int) -> int {
    if length == 0 {
        0
    } else if delta < 0 {
        if current + delta < 0 {
            0
        } else {
            current + delta
        }
    } else if current + delta > length - 1 {
        length - 1
    } else {
        current + delta
    }
}

pub fn move_index(current: usize, length: usize, delta: isize) -> (r: usize)
    ensures
        r == moved_index(current as int, length as int, delta as int),
{
    if length == 0 {
        return 0;
    }
    if delta < 0 {
        let back: usize = if delta == isize::MIN {
            isize::MAX as usize + 1
        } else {
            (-delta) as usize
        };
        if back > current {
            0
        } else {
            current - back
        }
    } else {
        let forward = delta as usize;
        if forward > length - 1 || current > length - 1 - forward {
            length - 1
        } else {
            current + forward
        }
    }
}

/// The first or the last position of a list.
pub open spec fn edge_of(length: int, last: bool) -> int {
    if last && length > 0 {
        length - 1
    } else {
        0
    }
}

pub fn edge_index(length: usize, last: bool) -> (r: usize)
    ensures
        r == edge_of(length as int, last),
{
    if last {
        length.saturating_sub(1)
    } else {
        0
    }
}

// ---------------------------------------------------------------------------
// Items
// ---------------------------------------------------------------------------

/// One line of the tree.
#[allow(inconsistent_fields)]
#[derive(Debug, PartialEq, Eq)]
pub enum NavigationItem {
    Account { id: AccountId, name: String },
    Folder { id: FolderId, account_id: AccountId, name: String, depth: usize },
}

impl Clone for NavigationItem {
    fn clone(&self) -> (r: Self)
        ensures
            r == *self,
    {
        match self {
            NavigationItem::Account { id, name } => NavigationItem::Account {
                id: id.clone(),
                name: name.clone(),
            },
            NavigationItem::Folder { id, account_id, name, depth } => NavigationItem::Folder {
                id: id.clone(),
                account_id: account_id.clone(),
                name: name.clone(),
                depth: *depth,
            },
        }
    }
}

/// The account or folder whose notes are shown.
#[derive(Debug, PartialEq, Eq)]
pub enum RefreshContext {
    Account(AccountId),
    Folder(FolderId),
}

impl Clone for RefreshContext {
    fn clone(&self) -> (r: Self)
        ensures
            r == *self,
    {
        match self {
            RefreshContext::Account(id) => RefreshContext::Account(id.clone()),
            RefreshContext::Folder(id) => RefreshContext::Folder(id.clone()),
        }
    }
}

pub open spec fn context_is(a: RefreshContext, b: RefreshContext) -> bool {
    match (a, b) {
        (RefreshContext::Account(x), RefreshContext::Account(y)) => x@ == y@,
        (RefreshContext::Folder(x), RefreshContext::Folder(y)) => x@ == y@,
        _ => false,
    }
}

/// The query for the notes of an account or a folder.
pub open spec fn context_query(context: RefreshContext) -> NotesQuery {
    match context {
        RefreshContext::Account(id) => NotesQuery { account_id: Some(id), folder_id: None },
        RefreshContext::Folder(id) => NotesQuery { account_id: None, folder_id: Some(id) },
    }
}

impl RefreshContext {
    pub fn query(&self) -> (r: NotesQuery)
        ensures
            r == context_query(*self),
    {
        match self {
            RefreshContext::Account(id) => NotesQuery {
                account_id: Some(id.clone()),
                folder_id: None,
            },
            RefreshContext::Folder(id) => NotesQuery {
                account_id: None,
                folder_id: Some(id.clone()),
            },
        }
    }

    pub fn same(&self, other: &Self) -> (r: bool)
        ensures
            r == context_is(*self, *other),
    {
        match (self, other) {
            (RefreshContext::Account(x), RefreshContext::Account(y)) => x.same(y),
            (RefreshContext::Folder(x), RefreshContext::Folder(y)) => x.same(y),
            _ => false,
        }
    }
}

/// The account or folder of a line.
pub open spec fn item_context(item: NavigationItem) -> RefreshContext {
    match item {
        NavigationItem::Account { id, .. } => RefreshContext::Account(id),
        NavigationItem::Folder { id, .. } => RefreshContext::Folder(id),
    }
}

impl NavigationItem {
    pub fn context(&self) -> (r: RefreshContext)
        ensures
            r == item_context(*self),
    {
        match self {
            NavigationItem::Account { id, .. } => RefreshContext::Account(id.clone()),
            NavigationItem::Folder { id, .. } => RefreshContext::Folder(id.clone()),
        }
    }
}

/// What is looked for in the tree.
pub enum Wanted<'a> {
    /// Any folder.
    AnyFolder,
    /// Any folder of an account.
    FolderOf(&'a AccountId),
    /// A folder of an account.
    FolderIn(&'a AccountId, &'a FolderId),
    /// A folder, whatever its account.
    Folder(&'a FolderId),
    /// An account.
    Account(&'a AccountId),
}

/// Whether a line is what is looked for.
pub open spec fn wanted(w: Wanted, item: NavigationItem) -> bool {
    match (w, item) {
        (Wanted::AnyFolder, NavigationItem::Folder { .. }) => true,
        (Wanted::FolderOf(a), NavigationItem::Folder { account_id, .. }) => account_id@ == a@,
        (Wanted::FolderIn(a, f), NavigationItem::Folder { id, account_id, .. }) => id@ == f@
            && account_id@ == a@,
        (Wanted::Folder(f), NavigationItem::Folder { id, .. }) => id@ == f@,
        (Wanted::Account(a), NavigationItem::Account { id, .. }) => id@ == a@,
        _ => false,
    }
}

/// The position of the first line that is looked for, or the length where there is none.
pub open spec fn item_at(items: Seq<NavigationItem>, w: Wanted) -> nat {
    first_index(items, |item: NavigationItem| wanted(w, item))
}

fn is_wanted(w: &Wanted, item: &NavigationItem) -> (r: bool)
    ensures
        r == wanted(*w, *item),
{
    match (w, item) {
        (Wanted::AnyFolder, NavigationItem::Folder { .. }) => true,
        (Wanted::FolderOf(a), NavigationItem::Folder { account_id, .. }) => account_id.same(a),
        (Wanted::FolderIn(a, f), NavigationItem::Folder { id, account_id, .. }) => id.same(f)
            && account_id.same(a),
        (Wanted::Folder(f), NavigationItem::Folder { id, .. }) => id.same(f),
        (Wanted::Account(a), NavigationItem::Account { id, .. }) => id.same(a),
        _ => false,
    }
}

/// The position of the first line that is looked for.
pub fn find_item(items: &Vec<NavigationItem>, w: Wanted) -> (r: Option<usize>)
    ensures
        match r {
            Some(i) => i < items@.len() && i == item_at(items@, w),
            None => item_at(items@, w) == items@.len(),
        },
{
    let ghost fits = |item: NavigationItem| wanted(w, item);
    let mut i: usize = 0;
    while i < items.len()
        invariant
            i <= items@.len(),
            fits == (|item: NavigationItem| wanted(w, item)),
            forall|k: int| 0 <= k < i ==> !fits(#[trigger] items@[k]),
        decreases items@.len() - i,
    {
        if is_wanted(&w, &items[i]) {
            proof {
                lemma_first_index(items@, fits, i as int);
            }
            return Some(i);
        }
        i = i + 1;
    }
    proof {
        lemma_first_index(items@, fits, i as int);
    }
    None
}

// ---------------------------------------------------------------------------
// The tree
// ---------------------------------------------------------------------------

/// The ids of a list, as a set.
pub open spec fn id_set(ids: Seq<FolderId>) -> Set<Seq<char>> {
    Set::new(|t: Seq<char>| exists|k: int| 0 <= k < ids.len() && (#[trigger] ids[k])@ == t)
}

proof fn lemma_id_set_push(ids: Seq<FolderId>, id: FolderId)
    ensures
        id_set(ids.push(id)) == id_set(ids).insert(id@),
{
    let more = ids.push(id);
    assert forall|t: Seq<char>| id_set(more).contains(t) == id_set(ids).insert(id@).contains(t) by {
        if t == id@ {
            assert(more[ids.len() as int]@ == t);
        }
        if id_set(ids).contains(t) {
            let k = choose|k: int| 0 <= k < ids.len() && (#[trigger] ids[k])@ == t;
            assert(more[k]@ == t);
        }
        if id_set(more).contains(t) && t != id@ {
            let k = choose|k: int| 0 <= k < more.len() && (#[trigger] more[k])@ == t;
            assert(ids[k]@ == t);
        }
    }
    assert(id_set(more) =~= id_set(ids).insert(id@));
}

fn holds_id(ids: &Vec<FolderId>, id: &FolderId) -> (r: bool)
    ensures
        r == id_set(ids@).contains(id@),
{
    let mut i: usize = 0;
    while i < ids.len()
        invariant
            i <= ids@.len(),
            forall|k: int| 0 <= k < i ==> (#[trigger] ids@[k])@ != id@,
        decreases ids@.len() - i,
    {
        if ids[i].same(id) {
            return true;
        }
        i = i + 1;
    }
    false
}

/// How many folders have an id that has not been seen.
pub open spec fn unseen(folders: Seq<Folder>, seen: Set<Seq<char>>) -> nat
    decreases folders.len(),
{
    if folders.len() == 0 {
        0
    } else {
        unseen(folders.drop_last(), seen) + if seen.contains(folders.last().id@) {
            0nat
        } else {
            1nat
        }
    }
}

pub proof fn lemma_unseen(folders: Seq<Folder>, seen: Set<Seq<char>>, more: Set<Seq<char>>)
    requires
        seen.subset_of(more),
    ensures
        unseen(folders, more) <= unseen(folders, seen) <= folders.len(),
        (exists|i: int|
            0 <= i < folders.len() && !seen.contains((#[trigger] folders[i]).id@) && more.contains(
                folders[i].id@,
            )) ==> unseen(folders, more) < unseen(folders, seen),
    decreases folders.len(),
{
    if folders.len() > 0 {
        let t = folders.drop_last();
        lemma_unseen(t, seen, more);
        if exists|i: int|
            0 <= i < folders.len() && !seen.contains((#[trigger] folders[i]).id@) && more.contains(
                folders[i].id@,
            ) {
            let i = choose|i: int|
                0 <= i < folders.len() && !seen.contains((#[trigger] folders[i]).id@)
                    && more.contains(folders[i].id@);
            if i < t.len() {
                assert(t[i] == folders[i]);
            }
        }
    }
}

/// The lines of the folders from position `i` on that lie directly in `parent`, each
/// followed by the lines of the folders in it, and the ids seen by then. A folder whose
/// id has been seen is passed over.
pub open spec fn branch(
    folders: Seq<Folder>,
    parent: FolderParent,
    account_id: AccountId,
    depth: nat,
    seen: Set<Seq<char>>,
    i: int,
) -> (Seq<NavigationItem>, Set<Seq<char>>)
    decreases unseen(folders, seen), folders.len() - i,
{
    if i < 0 || i >= folders.len() {
        (seq![], seen)
    } else {
        let folder = folders[i];
        if !parent_is(folder.parent, parent) || seen.contains(folder.id@) {
            branch(folders, parent, account_id, depth, seen, i + 1)
        } else {
            let with_this = seen.insert(folder.id@);
            proof {
                lemma_unseen(folders, seen, with_this);
                assert(!seen.contains(folders[i].id@));
            }
            let below = branch(
                folders,
                FolderParent::Folder { folder_id: folder.id },
                account_id,
                depth + 1,
                with_this,
                0,
            );
            let after = with_this.union(below.1);
            proof {
                lemma_unseen(folders, seen, after);
            }
            let rest = branch(folders, parent, account_id, depth, after, i + 1);
            (
                seq![
                    NavigationItem::Folder {
                        id: folder.id,
                        account_id,
                        name: folder.name,
                        depth: depth as usize,
                    },
                ] + below.0 + rest.0,
                rest.1,
            )
        }
    }
}

pub proof fn lemma_branch_seen(
    folders: Seq<Folder>,
    parent: FolderParent,
    account_id: AccountId,
    depth: nat,
    seen: Set<Seq<char>>,
    i: int,
)
    ensures
        seen.subset_of(branch(folders, parent, account_id, depth, seen, i).1),
    decreases unseen(folders, seen), folders.len() - i,
{
    if 0 <= i < folders.len() {
        let folder = folders[i];
        if !parent_is(folder.parent, parent) || seen.contains(folder.id@) {
            lemma_branch_seen(folders, parent, account_id, depth, seen, i + 1);
        } else {
            let with_this = seen.insert(folder.id@);
            lemma_unseen(folders, seen, with_this);
            assert(!seen.contains(folders[i].id@));
            let child = FolderParent::Folder { folder_id: folder.id };
            lemma_branch_seen(folders, child, account_id, depth + 1, with_this, 0);
            let below = branch(folders, child, account_id, depth + 1, with_this, 0);
            let after = with_this.union(below.1);
            lemma_unseen(folders, seen, after);
            lemma_branch_seen(folders, parent, account_id, depth, after, i + 1);
        }
    }
}

fn append_folders(
    output: &mut Vec<NavigationItem>,
    folders: &Vec<Folder>,
    parent: &FolderParent,
    account_id: &AccountId,
    depth: usize,
    visited: &mut Vec<FolderId>,
)
    requires
        depth + unseen(folders@, id_set(old(visited)@)) <= folders@.len(),
    ensures
        final(output)@ == old(output)@ + branch(
            folders@,
            *parent,
            *account_id,
            depth as nat,
            id_set(old(visited)@),
            0,
        ).0,
        id_set(final(visited)@) == branch(
            folders@,
            *parent,
            *account_id,
            depth as nat,
            id_set(old(visited)@),
            0,
        ).1,
    decreases unseen(folders@, id_set(old(visited)@)),
{
    let ghost start = id_set(visited@);
    let ghost all = branch(folders@, *parent, *account_id, depth as nat, start, 0);
    let ghost before = output@;
    let mut i: usize = 0;
    assert(output@ + all.0 =~= before + all.0);
    while i < folders.len()
        invariant
            i <= folders@.len(),
            start.subset_of(id_set(visited@)),
            depth + unseen(folders@, start) <= folders@.len(),
            start == id_set(old(visited)@),
            ({
                let rest = branch(
                    folders@,
                    *parent,
                    *account_id,
                    depth as nat,
                    id_set(visited@),
                    i as int,
                );
                output@ + rest.0 == before + all.0 && rest.1 == all.1
            }),
        decreases folders@.len() - i,
    {
        let folder = &folders[i];
        if folder.parent.same(parent) && !holds_id(visited, &folder.id) {
            let ghost seen = id_set(visited@);
            let ghost with_this = seen.insert(folder.id@);
            let ghost so_far = output@;
            let ghost child = FolderParent::Folder { folder_id: folder.id };
            let ghost item = NavigationItem::Folder {
                id: folder.id,
                account_id: *account_id,
                name: folder.name,
                depth,
            };
            let ghost below = branch(
                folders@,
                child,
                *account_id,
                (depth + 1) as nat,
                with_this,
                0,
            );
            let ghost rest = branch(
                folders@,
                *parent,
                *account_id,
                depth as nat,
                with_this.union(below.1),
                i + 1,
            );
            proof {
                lemma_unseen(folders@, start, seen);
                lemma_unseen(folders@, seen, with_this);
                assert(!seen.contains(folders@[i as int].id@));
                lemma_id_set_push(visited@, folder.id);
                lemma_branch_seen(folders@, child, *account_id, (depth + 1) as nat, with_this, 0);
                assert(with_this.union(below.1) =~= below.1);
            }
            visited.push(folder.id.clone());
            output.push(
                NavigationItem::Folder {
                    id: folder.id.clone(),
                    account_id: account_id.clone(),
                    name: folder.name.clone(),
                    depth,
                },
            );
            let inside = FolderParent::Folder { folder_id: folder.id.clone() };
            append_folders(output, folders, &inside, account_id, depth + 1, visited);
            proof {
                assert(so_far.push(item) + below.0 + rest.0 =~= so_far + (seq![item] + below.0
                    + rest.0));
            }
        }
        i = i + 1;
    }
    proof {
        assert(output@ + Seq::<NavigationItem>::empty() =~= output@);
    }
}

/// The lines of the folders of an account.
pub open spec fn account_branch(folders: Seq<Folder>, account_id: AccountId) -> Seq<NavigationItem> {
    branch(
        folders,
        FolderParent::Account { account_id },
        account_id,
        0,
        Set::empty(),
        0,
    ).0
}

/// The id of the folder of a line.
pub open spec fn folder_id_of(item: NavigationItem) -> Seq<char> {
    match item {
        NavigationItem::Folder { id, .. } => id@,
        NavigationItem::Account { .. } => seq![],
    }
}

/// Whether lines are folders of an account that had not been seen, each listed and none
/// twice, and all of them seen afterwards.
pub open spec fn fresh_lines(
    items: Seq<NavigationItem>,
    folders: Seq<Folder>,
    account_id: AccountId,
    seen: Set<Seq<char>>,
    after: Set<Seq<char>>,
) -> bool {
    &&& seen.subset_of(after)
    &&& forall|i: int|
        0 <= i < items.len() ==> {
            &&& (#[trigger] items[i]) is Folder
            &&& items[i]->account_id == account_id
            &&& !seen.contains(folder_id_of(items[i]))
            &&& after.contains(folder_id_of(items[i]))
            &&& exists|k: int|
                0 <= k < folders.len() && (#[trigger] folders[k]).id@ == folder_id_of(items[i])
        }
    &&& forall|i: int, j: int|
        0 <= i < j < items.len() ==> folder_id_of(#[trigger] items[i]) != folder_id_of(
            #[trigger] items[j],
        )
}

proof fn lemma_branch_is_fresh(
    folders: Seq<Folder>,
    parent: FolderParent,
    account_id: AccountId,
    depth: nat,
    seen: Set<Seq<char>>,
    i: int,
)
    requires
        0 <= i,
    ensures
        fresh_lines(
            branch(folders, parent, account_id, depth, seen, i).0,
            folders,
            account_id,
            seen,
            branch(folders, parent, account_id, depth, seen, i).1,
        ),
    decreases unseen(folders, seen), folders.len() - i,
{
    if i < folders.len() {
        let folder = folders[i];
        if !parent_is(folder.parent, parent) || seen.contains(folder.id@) {
            lemma_branch_is_fresh(folders, parent, account_id, depth, seen, i + 1);
        } else {
            let with_this = seen.insert(folder.id@);
            lemma_unseen(folders, seen, with_this);
            let inside = FolderParent::Folder { folder_id: folder.id };
            let below = branch(folders, inside, account_id, depth + 1, with_this, 0);
            lemma_branch_is_fresh(folders, inside, account_id, depth + 1, with_this, 0);
            let after = with_this.union(below.1);
            lemma_unseen(folders, seen, after);
            let rest = branch(folders, parent, account_id, depth, after, i + 1);
            lemma_branch_is_fresh(folders, parent, account_id, depth, after, i + 1);
            let all = branch(folders, parent, account_id, depth, seen, i);
            let n = below.0.len() as int;
            assert forall|k: int| 0 <= k < all.0.len() implies {
                &&& (#[trigger] all.0[k]) is Folder
                &&& all.0[k]->account_id == account_id
                &&& !seen.contains(folder_id_of(all.0[k]))
                &&& all.1.contains(folder_id_of(all.0[k]))
                &&& exists|m: int|
                    0 <= m < folders.len() && (#[trigger] folders[m]).id@ == folder_id_of(all.0[k])
            } by {
                if k == 0 {
                    assert(folders[i].id@ == folder_id_of(all.0[k]));
                } else if k <= n {
                    assert(all.0[k] == below.0[k - 1]);
                } else {
                    assert(all.0[k] == rest.0[k - 1 - n]);
                }
            }
            assert forall|a: int, b: int| 0 <= a < b < all.0.len() implies folder_id_of(
                #[trigger] all.0[a],
            ) != folder_id_of(#[trigger] all.0[b]) by {
                if b <= n {
                    assert(all.0[b] == below.0[b - 1]);
                    if a > 0 {
                        assert(all.0[a] == below.0[a - 1]);
                    }
                } else {
                    assert(all.0[b] == rest.0[b - 1 - n]);
                    if a > n {
                        assert(all.0[a] == rest.0[a - 1 - n]);
                    } else if a > 0 {
                        assert(all.0[a] == below.0[a - 1]);
                    }
                }
            }
        }
    }
}

/// Under an account every folder is shown at most once, however the folders are nested,
/// and every line is a folder that is listed.
pub proof fn law_folder_is_shown_once(folders: Seq<Folder>, account_id: AccountId)
    ensures
        ({
            let items = account_branch(folders, account_id);
            &&& forall|i: int|
                0 <= i < items.len() ==> (#[trigger] items[i]) is Folder && items[i]->account_id
                    == account_id && exists|k: int|
                    0 <= k < folders.len() && (#[trigger] folders[k]).id@ == folder_id_of(items[i])
            &&& forall|i: int, j: int|
                0 <= i < j < items.len() ==> folder_id_of(#[trigger] items[i]) != folder_id_of(
                    #[trigger] items[j],
                )
        }),
{
    lemma_branch_is_fresh(
        folders,
        FolderParent::Account { account_id },
        account_id,
        0,
        Set::empty(),
        0,
    );
}

/// The lines of the first `n` accounts, each followed by those of its folders.
pub open spec fn tree_upto(accounts: Seq<Account>, folders: Seq<Folder>, n: nat) -> Seq<
    NavigationItem,
>
    decreases n,
{
    if n == 0 {
        seq![]
    } else {
        let account = accounts[n - 1];
        tree_upto(accounts, folders, (n - 1) as nat) + seq![
            NavigationItem::Account { id: account.id, name: account.name },
        ] + account_branch(folders, account.id)
    }
}

/// The tree of accounts and folders.
pub open spec fn tree(accounts: Seq<Account>, folders: Seq<Folder>) -> Seq<NavigationItem> {
    tree_upto(accounts, folders, accounts.len())
}

/// The tree of accounts and folders.
pub fn build_navigation(accounts: &Vec<Account>, folders: &Vec<Folder>) -> (r: Vec<NavigationItem>)
    ensures
        r@ == tree(accounts@, folders@),
{
    let mut output: Vec<NavigationItem> = Vec::new();
    let mut i: usize = 0;
    while i < accounts.len()
        invariant
            i <= accounts@.len(),
            output@ == tree_upto(accounts@, folders@, i as nat),
        decreases accounts@.len() - i,
    {
        let account = &accounts[i];
        output.push(NavigationItem::Account { id: account.id.clone(), name: account.name.clone() });
        let mut visited: Vec<FolderId> = Vec::new();
        let parent = FolderParent::Account { account_id: account.id.clone() };
        proof {
            assert(id_set(visited@) =~= Set::empty());
            lemma_unseen(folders@, Set::empty(), Set::empty());
        }
        append_folders(&mut output, folders, &parent, &account.id, 0, &mut visited);
        proof {
            assert(tree_upto(accounts@, folders@, i as nat).push(
                NavigationItem::Account { id: account.id, name: account.name },
            ) =~= tree_upto(accounts@, folders@, i as nat) + seq![
                NavigationItem::Account { id: account.id, name: account.name },
            ]);
        }
        i = i + 1;
    }
    output
}

// ---------------------------------------------------------------------------
// Where a session points
// ---------------------------------------------------------------------------

/// Whether a folder with an id belongs to an account.
pub open spec fn folder_listed(folders: Seq<Folder>, account: Seq<char>, folder: Seq<char>) -> bool {
    exists|i: int|
        0 <= i < folders.len() && (#[trigger] folders[i]).id@ == folder && folders[i].account_id@
            == account
}

pub fn lists_folder(folders: &Vec<Folder>, account: &AccountId, folder: &FolderId) -> (r: bool)
    ensures
        r == folder_listed(folders@, account@, folder@),
{
    let mut i: usize = 0;
    while i < folders.len()
        invariant
            i <= folders@.len(),
            forall|k: int|
                0 <= k < i ==> !((#[trigger] folders@[k]).id@ == folder@ && folders@[k].account_id@
                    == account@),
        decreases folders@.len() - i,
    {
        if folders[i].id.same(folder) && folders[i].account_id.same(account) {
            return true;
        }
        i = i + 1;
    }
    false
}

/// The first folder of an account, or the length where it has none.
pub open spec fn first_folder_of(folders: Seq<Folder>, account: Seq<char>) -> nat {
    first_index(folders, |f: Folder| f.account_id@ == account)
}

pub fn find_first_folder(folders: &Vec<Folder>, account: &AccountId) -> (r: Option<usize>)
    ensures
        match r {
            Some(i) => i < folders@.len() && i == first_folder_of(folders@, account@),
            None => first_folder_of(folders@, account@) == folders@.len(),
        },
{
    let ghost fits = |f: Folder| f.account_id@ == account@;
    let mut i: usize = 0;
    while i < folders.len()
        invariant
            i <= folders@.len(),
            fits == (|f: Folder| f.account_id@ == account@),
            forall|k: int| 0 <= k < i ==> !fits(#[trigger] folders@[k]),
        decreases folders@.len() - i,
    {
        if folders[i].account_id.same(account) {
            proof {
                lemma_first_index(folders@, fits, i as int);
            }
            return Some(i);
        }
        i = i + 1;
    }
    proof {
        lemma_first_index(folders@, fits, i as int);
    }
    None
}

/// The folder of an account that is shown where no other is asked for: its default
/// folder where that is listed, else its first one, else none.
pub open spec fn home_folder(account: Account, folders: Seq<Folder>) -> Option<FolderId> {
    let first = first_folder_of(folders, account.id@) as int;
    if account.default_folder_id is Some && folder_listed(
        folders,
        account.id@,
        account.default_folder_id->0@,
    ) {
        account.default_folder_id
    } else if first < folders.len() {
        Some(folders[first].id)
    } else {
        None
    }
}

pub fn find_home_folder(account: &Account, folders: &Vec<Folder>) -> (r: Option<FolderId>)
    ensures
        r == home_folder(*account, folders@),
{
    if let Some(id) = &account.default_folder_id {
        if lists_folder(folders, &account.id, id) {
            return Some(id.clone());
        }
    }
    match find_first_folder(folders, &account.id) {
        Some(i) => Some(folders[i].id.clone()),
        None => None,
    }
}

/// The account or folder that a session points to in the data at hand: its folder where
/// that is still listed, else the account's own choice. None where the account is gone.
pub open spec fn session_context(
    accounts: Seq<Account>,
    folders: Seq<Folder>,
    session: SessionState,
) -> Option<RefreshContext> {
    match session.account_id {
        None => None,
        Some(id) => {
            let k = account_at(accounts, id@) as int;
            if k >= accounts.len() {
                None
            } else if session.folder_id is Some && folder_listed(
                folders,
                id@,
                session.folder_id->0@,
            ) {
                Some(RefreshContext::Folder(session.folder_id->0))
            } else {
                match home_folder(accounts[k], folders) {
                    Some(folder) => Some(RefreshContext::Folder(folder)),
                    None => Some(RefreshContext::Account(accounts[k].id)),
                }
            }
        },
    }
}

pub fn session_context_for_data(
    accounts: &Vec<Account>,
    folders: &Vec<Folder>,
    session: &SessionState,
) -> (r: Option<RefreshContext>)
    ensures
        r == session_context(accounts@, folders@, *session),
{
    let account_id = match &session.account_id {
        Some(id) => id,
        None => return None,
    };
    let account = match find_account(accounts, account_id) {
        Some(i) => &accounts[i],
        None => return None,
    };
    if let Some(folder_id) = &session.folder_id {
        if lists_folder(folders, account_id, folder_id) {
            return Some(RefreshContext::Folder(folder_id.clone()));
        }
    }
    match find_home_folder(account, folders) {
        Some(folder) => Some(RefreshContext::Folder(folder)),
        None => Some(RefreshContext::Account(account.id.clone())),
    }
}

/// The line that a session points to: its folder where that is shown under its account,
/// else the account's default folder, any folder of it, or the account itself.
pub open spec fn session_line(
    accounts: Seq<Account>,
    items: Seq<NavigationItem>,
    session: SessionState,
) -> Option<usize> {
    match session.account_id {
        None => None,
        Some(id) => {
            let k = account_at(accounts, id@) as int;
            if k >= accounts.len() {
                None
            } else {
                let own = match session.folder_id {
                    Some(f) => item_at(items, Wanted::FolderIn(&id, &f)),
                    None => items.len(),
                };
                let usual = match accounts[k].default_folder_id {
                    Some(f) => item_at(items, Wanted::FolderIn(&id, &f)),
                    None => items.len(),
                };
                let any = item_at(items, Wanted::FolderOf(&id));
                let itself = item_at(items, Wanted::Account(&id));
                if own < items.len() {
                    Some(own as usize)
                } else if usual < items.len() {
                    Some(usual as usize)
                } else if any < items.len() {
                    Some(any as usize)
                } else if itself < items.len() {
                    Some(itself as usize)
                } else {
                    None
                }
            }
        },
    }
}

pub fn find_session_line(
    accounts: &Vec<Account>,
    items: &Vec<NavigationItem>,
    session: &SessionState,
) -> (r: Option<usize>)
    ensures
        r == session_line(accounts@, items@, *session),
{
    let id = match &session.account_id {
        Some(id) => id,
        None => return None,
    };
    let account = match find_account(accounts, id) {
        Some(i) => &accounts[i],
        None => return None,
    };
    if let Some(folder) = &session.folder_id {
        if let Some(i) = find_item(items, Wanted::FolderIn(id, folder)) {
            return Some(i);
        }
    }
    if let Some(folder) = &account.default_folder_id {
        if let Some(i) = find_item(items, Wanted::FolderIn(id, folder)) {
            return Some(i);
        }
    }
    if let Some(i) = find_item(items, Wanted::FolderOf(id)) {
        return Some(i);
    }
    find_item(items, Wanted::Account(id))
}

/// The line of an account or folder.
pub open spec fn context_line(items: Seq<NavigationItem>, context: RefreshContext) -> Option<usize> {
    let i = match context {
        RefreshContext::Account(id) => item_at(items, Wanted::Account(&id)),
        RefreshContext::Folder(id) => item_at(items, Wanted::Folder(&id)),
    };
    if i < items.len() {
        Some(i as usize)
    } else {
        None
    }
}

pub fn find_context_line(items: &Vec<NavigationItem>, context: &RefreshContext) -> (r: Option<
    usize,
>)
    ensures
        r == context_line(items@, *context),
        r matches Some(i) ==> i < items@.len(),
{
    match context {
        RefreshContext::Account(id) => find_item(items, Wanted::Account(id)),
        RefreshContext::Folder(id) => find_item(items, Wanted::Folder(id)),
    }
}

/// The line that is selected where nothing else is asked for: the first folder.
pub open spec fn default_line(items: Seq<NavigationItem>) -> usize {
    let i = item_at(items, Wanted::AnyFolder);
    if i < items.len() {
        i as usize
    } else {
        0
    }
}

pub fn default_navigation_index(items: &Vec<NavigationItem>) -> (r: usize)
    ensures
        r == default_line(items@),
{
    match find_item(items, Wanted::AnyFolder) {
        Some(i) => i,
        None => 0,
    }
}

// ---------------------------------------------------------------------------
// Moving a folder
// ---------------------------------------------------------------------------

/// The folder that a folder lies in, where it lies in one.
pub open spec fn enclosing(folders: Seq<Folder>, id: Seq<char>) -> Option<Seq<char>> {
    let k = folder_at(folders, id) as int;
    if k >= folders.len() {
        None
    } else {
        match folders[k].parent {
            FolderParent::Folder { folder_id } => Some(folder_id@),
            FolderParent::Account { .. } => None,
        }
    }
}

/// The folder `n` steps further out, where there is one.
pub open spec fn outward(folders: Seq<Folder>, id: Seq<char>, n: nat) -> Option<Seq<char>>
    decreases n,
{
    if n == 0 {
        Some(id)
    } else {
        match outward(folders, id, (n - 1) as nat) {
            Some(inner) => enclosing(folders, inner),
            None => None,
        }
    }
}

/// Whether a folder lies in another, at any depth.
pub open spec fn lies_in(folders: Seq<Folder>, id: Seq<char>, ancestor: Seq<char>) -> bool {
    exists|n: nat| n > 0 && #[trigger] outward(folders, id, n) == Some(ancestor)
}

/// The steps outward from a point of the way out are the later steps of the whole way.
proof fn lemma_outward_on(folders: Seq<Folder>, id: Seq<char>, m: nat, n: nat)
    requires
        outward(folders, id, m) is Some,
    ensures
        outward(folders, outward(folders, id, m)->0, n) == outward(folders, id, m + n),
    decreases n,
{
    if n > 0 {
        lemma_outward_on(folders, id, m, (n - 1) as nat);
    }
}

/// Where the way out comes back to a folder that it has passed, it goes round: whatever
/// it reaches, it reaches before it comes back.
proof fn lemma_outward_round(
    folders: Seq<Folder>,
    id: Seq<char>,
    at: nat,
    back: nat,
    ancestor: Seq<char>,
    n: nat,
)
    requires
        at < back,
        outward(folders, id, at) is Some,
        outward(folders, id, back) == outward(folders, id, at),
        n > 0,
        outward(folders, id, n) == Some(ancestor),
    ensures
        exists|k: nat| 0 < k <= back && #[trigger] outward(folders, id, k) == Some(ancestor),
    decreases n,
{
    if n > back {
        let less = (n - (back - at)) as nat;
        lemma_outward_on(folders, id, back, (n - back) as nat);
        lemma_outward_on(folders, id, at, (n - back) as nat);
        assert(outward(folders, id, less) == outward(folders, id, n));
        lemma_outward_round(folders, id, at, back, ancestor, less);
    }
}

/// Whether a folder lies in another, at any depth. Folders that lie in one another in a
/// circle are gone round once.
pub fn folder_is_descendant_of(folders: &Vec<Folder>, candidate: &FolderId, ancestor: &FolderId) -> (r:
    bool)
    ensures
        r == lies_in(folders@, candidate@, ancestor@),
{
    let mut current = candidate.clone();
    let mut visited: Vec<FolderId> = Vec::new();
    let ghost mut steps: nat = 0;
    proof {
        assert(id_set(visited@) =~= Set::empty());
        lemma_unseen(folders@, Set::empty(), Set::empty());
    }
    while !holds_id(&visited, &current)
        invariant
            outward(folders@, candidate@, steps) == Some(current@),
            forall|k: nat|
                0 < k <= steps ==> #[trigger] outward(folders@, candidate@, k) != Some(ancestor@),
            forall|t: Seq<char>|
                id_set(visited@).contains(t) ==> exists|k: nat|
                    k < steps && #[trigger] outward(folders@, candidate@, k) == Some(t),
        decreases unseen(folders@, id_set(visited@)),
    {
        let ghost seen = id_set(visited@);
        let ghost here = current@;
        proof {
            lemma_id_set_push(visited@, current);
            lemma_folder_at(folders@, current@);
        }
        let next = match find_folder(folders, &current) {
            Some(i) => match &folders[i].parent {
                FolderParent::Folder { folder_id } => {
                    proof {
                        assert(folders@[i as int].id@ == here);
                        lemma_unseen(folders@, seen, seen.insert(here));
                    }
                    folder_id.clone()
                },
                FolderParent::Account { .. } => {
                    proof {
                        lemma_outward_ends(folders@, candidate@, steps, ancestor@);
                    }
                    return false;
                },
            },
            None => {
                proof {
                    lemma_outward_ends(folders@, candidate@, steps, ancestor@);
                }
                return false;
            },
        };
        proof {
            assert(enclosing(folders@, here) == Some(next@));
            assert(outward(folders@, candidate@, steps + 1) == Some(next@));
        }
        if next.same(ancestor) {
            return true;
        }
        visited.push(current);
        proof {
            assert forall|t: Seq<char>| id_set(visited@).contains(t) implies exists|k: nat|
                k < steps + 1 && #[trigger] outward(folders@, candidate@, k) == Some(t) by {
                if t == here {
                    assert(outward(folders@, candidate@, steps) == Some(t));
                } else {
                    assert(seen.contains(t));
                    let k = choose|k: nat|
                        k < steps && #[trigger] outward(folders@, candidate@, k) == Some(t);
                    assert(outward(folders@, candidate@, k) == Some(t));
                }
            }
            steps = steps + 1;
        }
        current = next;
    }
    proof {
        if lies_in(folders@, candidate@, ancestor@) {
            let n = choose|n: nat|
                n > 0 && #[trigger] outward(folders@, candidate@, n) == Some(ancestor@);
            let at = choose|k: nat|
                k < steps && #[trigger] outward(folders@, candidate@, k) == Some(current@);
            lemma_outward_round(folders@, candidate@, at, steps, ancestor@, n);
        }
    }
    false
}

/// Where the way out ends, it reaches nothing further.
proof fn lemma_outward_ends(folders: Seq<Folder>, id: Seq<char>, end: nat, ancestor: Seq<char>)
    requires
        outward(folders, id, end) is Some,
        outward(folders, id, end + 1) is None,
        forall|k: nat| 0 < k <= end ==> #[trigger] outward(folders, id, k) != Some(ancestor),
    ensures
        !lies_in(folders, id, ancestor),
{
    assert forall|n: nat| n > 0 implies #[trigger] outward(folders, id, n) != Some(ancestor) by {
        if n > end {
            lemma_outward_none(folders, id, end + 1, n);
        }
    }
}

proof fn lemma_outward_none(folders: Seq<Folder>, id: Seq<char>, end: nat, n: nat)
    requires
        outward(folders, id, end) is None,
        end <= n,
    ensures
        outward(folders, id, n) is None,
    decreases n,
{
    if end < n {
        lemma_outward_none(folders, id, end, (n - 1) as nat);
    }
}

/// A place that a folder can be moved to.
#[derive(Debug, PartialEq, Eq)]
pub enum FolderReparentTarget {
    AccountRoot,
    Folder { folder_id: FolderId, display_name: String, depth: usize },
}

impl Clone for FolderReparentTarget {
    fn clone(&self) -> (r: Self)
        ensures
            r == *self,
    {
        match self {
            FolderReparentTarget::AccountRoot => FolderReparentTarget::AccountRoot,
            FolderReparentTarget::Folder { folder_id, display_name, depth } =>
                FolderReparentTarget::Folder {
                folder_id: folder_id.clone(),
                display_name: display_name.clone(),
                depth: *depth,
            },
        }
    }
}

/// The folder that a place stands for; none for the account itself.
pub open spec fn target_parent(target: FolderReparentTarget) -> Option<FolderId> {
    match target {
        FolderReparentTarget::AccountRoot => None,
        FolderReparentTarget::Folder { folder_id, .. } => Some(folder_id),
    }
}

/// Whether a place is where a folder already lies.
pub open spec fn target_is(target: FolderReparentTarget, parent: FolderParent) -> bool {
    match (target, parent) {
        (FolderReparentTarget::AccountRoot, FolderParent::Account { .. }) => true,
        (
            FolderReparentTarget::Folder { folder_id, .. },
            FolderParent::Folder { folder_id: id },
        ) => folder_id@ == id@,
        _ => false,
    }
}

impl FolderReparentTarget {
    pub fn parent_id(&self) -> (r: Option<FolderId>)
        ensures
            r == target_parent(*self),
    {
        match self {
            FolderReparentTarget::AccountRoot => None,
            FolderReparentTarget::Folder { folder_id, .. } => Some(folder_id.clone()),
        }
    }

    pub fn matches_parent(&self, parent: &FolderParent) -> (r: bool)
        ensures
            r == target_is(*self, *parent),
    {
        match (self, parent) {
            (FolderReparentTarget::AccountRoot, FolderParent::Account { .. }) => true,
            (
                FolderReparentTarget::Folder { folder_id, .. },
                FolderParent::Folder { folder_id: id },
            ) => folder_id.same(id),
            _ => false,
        }
    }
}

/// Whether a folder can be moved to a line: a folder of the same account that is neither
/// the folder itself nor one that lies in it.
pub open spec fn can_hold(
    folders: Seq<Folder>,
    item: NavigationItem,
    account: Seq<char>,
    source: Seq<char>,
) -> bool {
    match item {
        NavigationItem::Folder { id, account_id, .. } => account_id@ == account && id@ != source
            && !lies_in(folders, id@, source),
        NavigationItem::Account { .. } => false,
    }
}

pub open spec fn target_of(item: NavigationItem) -> FolderReparentTarget {
    match item {
        NavigationItem::Folder { id, name, depth, .. } => FolderReparentTarget::Folder {
            folder_id: id,
            display_name: name,
            depth,
        },
        NavigationItem::Account { .. } => FolderReparentTarget::AccountRoot,
    }
}

/// The lines among the first `n` that a folder can be moved to, in their order.
pub open spec fn targets_upto(
    folders: Seq<Folder>,
    items: Seq<NavigationItem>,
    account: Seq<char>,
    source: Seq<char>,
    n: nat,
) -> Seq<FolderReparentTarget>
    decreases n,
{
    if n == 0 {
        seq![FolderReparentTarget::AccountRoot]
    } else {
        let before = targets_upto(folders, items, account, source, (n - 1) as nat);
        if can_hold(folders, items[n - 1], account, source) {
            before.push(target_of(items[n - 1]))
        } else {
            before
        }
    }
}

/// The places that a folder can be moved to: its account, then the folders that can
/// hold it.
pub open spec fn reparent_targets(
    folders: Seq<Folder>,
    items: Seq<NavigationItem>,
    account: Seq<char>,
    source: Seq<char>,
) -> Seq<FolderReparentTarget> {
    targets_upto(folders, items, account, source, items.len())
}

pub fn reparent_destinations(
    folders: &Vec<Folder>,
    items: &Vec<NavigationItem>,
    account_id: &AccountId,
    source_folder_id: &FolderId,
) -> (r: Vec<FolderReparentTarget>)
    ensures
        r@ == reparent_targets(folders@, items@, account_id@, source_folder_id@),
{
    let mut destinations: Vec<FolderReparentTarget> = Vec::new();
    destinations.push(FolderReparentTarget::AccountRoot);
    assert(destinations@ =~= seq![FolderReparentTarget::AccountRoot]);
    let mut i: usize = 0;
    while i < items.len()
        invariant
            i <= items@.len(),
            destinations@ == targets_upto(
                folders@,
                items@,
                account_id@,
                source_folder_id@,
                i as nat,
            ),
        decreases items@.len() - i,
    {
        if let NavigationItem::Folder { id, account_id: owner, name, depth } = &items[i] {
            if owner.same(account_id) && !id.same(source_folder_id) && !folder_is_descendant_of(
                folders,
                id,
                source_folder_id,
            ) {
                destinations.push(
                    FolderReparentTarget::Folder {
                        folder_id: id.clone(),
                        display_name: name.clone(),
                        depth: *depth,
                    },
                );
            }
        }
        i = i + 1;
    }
    destinations
}

/// The place where a folder already lies, or the first where it is not offered.
pub open spec fn current_target(targets: Seq<FolderReparentTarget>, parent: FolderParent) -> usize {
    let i = first_index(targets, |t: FolderReparentTarget| target_is(t, parent));
    if i < targets.len() {
        i as usize
    } else {
        0
    }
}

pub fn find_current_target(targets: &Vec<FolderReparentTarget>, parent: &FolderParent) -> (r: usize)
    ensures
        r == current_target(targets@, *parent),
{
    let ghost fits = |t: FolderReparentTarget| target_is(t, *parent);
    let mut i: usize = 0;
    while i < targets.len()
        invariant
            i <= targets@.len(),
            fits == (|t: FolderReparentTarget| target_is(t, *parent)),
            forall|k: int| 0 <= k < i ==> !fits(#[trigger] targets@[k]),
        decreases targets@.len() - i,
    {
        if targets[i].matches_parent(parent) {
            proof {
                lemma_first_index(targets@, fits, i as int);
            }
            return i;
        }
        i = i + 1;
    }
    proof {
        lemma_first_index(targets@, fits, i as int);
    }
    0
}

/// A folder is never offered itself, a folder that lies in it, or a folder of another
/// account as the place to move to.
pub proof fn law_targets_can_hold_the_folder(
    folders: Seq<Folder>,
    items: Seq<NavigationItem>,
    account: Seq<char>,
    source: Seq<char>,
    i: int,
)
    requires
        0 <= i < reparent_targets(folders, items, account, source).len(),
    ensures
        match reparent_targets(folders, items, account, source)[i] {
            FolderReparentTarget::AccountRoot => i == 0,
            FolderReparentTarget::Folder { folder_id, .. } => {
                &&& folder_id@ != source
                &&& !lies_in(folders, folder_id@, source)
                &&& exists|k: int|
                    0 <= k < items.len() && can_hold(folders, #[trigger] items[k], account, source)
                        && target_of(items[k]) == reparent_targets(
                        folders,
                        items,
                        account,
                        source,
                    )[i]
            },
        },
{
    lemma_targets_upto(folders, items, account, source, items.len(), i);
}

proof fn lemma_targets_upto(
    folders: Seq<Folder>,
    items: Seq<NavigationItem>,
    account: Seq<char>,
    source: Seq<char>,
    n: nat,
    i: int,
)
    requires
        n <= items.len(),
        0 <= i < targets_upto(folders, items, account, source, n).len(),
    ensures
        targets_upto(folders, items, account, source, n).len() > 0,
        ({
            let t = targets_upto(folders, items, account, source, n)[i];
            if i == 0 {
                t is AccountRoot
            } else {
                exists|k: int|
                    0 <= k < items.len() && can_hold(folders, #[trigger] items[k], account, source)
                        && target_of(items[k]) == t
            }
        }),
    decreases n,
{
    if n > 0 {
        let before = targets_upto(folders, items, account, source, (n - 1) as nat);
        if i < before.len() {
            lemma_targets_upto(folders, items, account, source, (n - 1) as nat, i);
        } else {
            lemma_targets_nonempty(folders, items, account, source, (n - 1) as nat);
            assert(can_hold(folders, items[n - 1], account, source));
        }
    }
}

proof fn lemma_targets_nonempty(
    folders: Seq<Folder>,
    items: Seq<NavigationItem>,
    account: Seq<char>,
    source: Seq<char>,
    n: nat,
)
    ensures
        targets_upto(folders, items, account, source, n).len() > 0,
    decreases n,
{
    if n > 0 {
        lemma_targets_nonempty(folders, items, account, source, (n - 1) as nat);
    }
}

} // verus!
