//! Laws of folders: which line belongs to what, where a folder can go, and what becomes of
//! the tree.

use vstd::prelude::*;

use crate::app::{selected_item, AppModel};
use crate::folders::{folder_deleted, new_folder_shown, others_upto};
use crate::model::{
    folder_at, lemma_account_at, lemma_folder_at, Account, AccountId, Folder, FolderId,
    FolderParent, NoteSummary,
};
use crate::navigation::{
    can_hold, context_line, current_target, default_line, enclosing, first_folder_of, first_index,
    home_folder, item_at, lemma_first_index_fits, lies_in, outward, reparent_targets, session_line,
    target_is, targets_upto, tree, wanted, FolderReparentTarget, NavigationItem, RefreshContext,
    Wanted,
};
use crate::rows::rows_by_folder;
use crate::session::SessionState;

verus! {

// ---------------------------------------------------------------------------
// Lines
// ---------------------------------------------------------------------------

/// Whether a line is that of an account or folder.
pub open spec fn is_line_of(item: NavigationItem, context: RefreshContext) -> bool {
    match (item, context) {
        (NavigationItem::Account { id, .. }, RefreshContext::Account(x)) => id@ == x@,
        (NavigationItem::Folder { id, .. }, RefreshContext::Folder(x)) => id@ == x@,
        _ => false,
    }
}

/// The line of an account or folder is the first that is its own. It has none just where
/// no line is its own.
pub proof fn law_line_is_its_own(items: Seq<NavigationItem>, context: RefreshContext)
    requires
        items.len() <= usize::MAX,
    ensures
        match context_line(items, context) {
            Some(line) => {
                &&& line < items.len()
                &&& is_line_of(items[line as int], context)
                &&& forall|i: int| 0 <= i < line ==> !is_line_of(#[trigger] items[i], context)
            },
            None => forall|i: int|
                0 <= i < items.len() ==> !is_line_of(#[trigger] items[i], context),
        },
{
    match context {
        RefreshContext::Account(id) => {
            let fits = |item: NavigationItem| wanted(Wanted::Account(&id), item);
            lemma_first_index_fits(items, fits);
            assert forall|i: int| 0 <= i < items.len() implies fits(#[trigger] items[i])
                == is_line_of(items[i], context) by {}
        },
        RefreshContext::Folder(id) => {
            let fits = |item: NavigationItem| wanted(Wanted::Folder(&id), item);
            lemma_first_index_fits(items, fits);
            assert forall|i: int| 0 <= i < items.len() implies fits(#[trigger] items[i])
                == is_line_of(items[i], context) by {}
        },
    }
}

/// Where nothing else is asked for, the first folder of the tree is selected; the first line
/// where there is none.
pub proof fn law_first_folder_is_selected(items: Seq<NavigationItem>, k: int)
    requires
        items.len() <= usize::MAX,
        0 <= k < items.len(),
    ensures
        items[k] is Folder && (forall|i: int| 0 <= i < k ==> (#[trigger] items[i]) is Account)
            ==> default_line(items) == k,
        (forall|i: int| 0 <= i < items.len() ==> (#[trigger] items[i]) is Account)
            ==> default_line(items) == 0,
{
    let fits = |item: NavigationItem| wanted(Wanted::AnyFolder, item);
    lemma_first_index_fits(items, fits);
    let at = item_at(items, Wanted::AnyFolder) as int;
    assert forall|i: int| 0 <= i < items.len() implies fits(#[trigger] items[i]) == (items[i]
        is Folder) by {}
    if at < items.len() {
        assert(fits(items[at]));
        assert(items[at] is Folder);
    }
    if items[k] is Folder && at > k {
        assert(!fits(items[k]));
    }
}

/// The folder that is shown for an account is one of its own: its default folder where that
/// is listed, else the first that is. There is none just where none is listed.
pub proof fn law_home_folder_is_of_the_account(account: Account, folders: Seq<Folder>, k: int)
    requires
        0 <= k < folders.len(),
        folders[k].account_id@ == account.id@,
    ensures
        home_folder(account, folders) is Some,
        account.default_folder_id matches Some(usual) && folders[k].id@ == usual@ ==> home_folder(
            account,
            folders,
        ) == account.default_folder_id,
        (account.default_folder_id is None || forall|i: int|
            0 <= i < folders.len() && (#[trigger] folders[i]).account_id@ == account.id@
                ==> folders[i].id@ != account.default_folder_id->0@) && (forall|i: int|
            0 <= i < k ==> (#[trigger] folders[i]).account_id@ != account.id@) ==> home_folder(
            account,
            folders,
        ) == Some(folders[k].id),
{
    let fits = |f: Folder| f.account_id@ == account.id@;
    lemma_first_index_fits(folders, fits);
    let first = first_folder_of(folders, account.id@) as int;
    assert(fits(folders[k]));
    if first > k {
        assert(!fits(folders[k]));
    }
    if first < k {
        assert(fits(folders[first]));
    }
}

/// No folder is shown for an account without any.
pub proof fn law_account_without_folders_has_no_home(account: Account, folders: Seq<Folder>)
    requires
        forall|i: int| 0 <= i < folders.len() ==> (#[trigger] folders[i]).account_id@ != account.id@,
    ensures
        home_folder(account, folders) is None,
{
    let fits = |f: Folder| f.account_id@ == account.id@;
    lemma_first_index_fits(folders, fits);
    let first = first_folder_of(folders, account.id@) as int;
    if first < folders.len() {
        assert(fits(folders[first]));
    }
}

/// Whether a line is that of a folder in an account.
pub open spec fn is_folder_line(item: NavigationItem, account: Seq<char>, folder: Seq<char>) -> bool {
    item matches NavigationItem::Folder { id, account_id, .. } && id@ == folder && account_id@
        == account
}

/// A session points to the line of its folder in its account, where there is one and the
/// account is listed.
pub proof fn law_session_points_to_its_folder(
    accounts: Seq<Account>,
    items: Seq<NavigationItem>,
    session: SessionState,
    account: AccountId,
    folder: FolderId,
    a: int,
    k: int,
)
    requires
        items.len() <= usize::MAX,
        session.account_id == Some(account),
        session.folder_id == Some(folder),
        0 <= a < accounts.len() && accounts[a].id@ == account@,
        0 <= k < items.len() && is_folder_line(items[k], account@, folder@),
    ensures
        session_line(accounts, items, session) matches Some(line) && line <= k && is_folder_line(
            items[line as int],
            account@,
            folder@,
        ),
{
    lemma_account_at(accounts, account@);
    let fits = |item: NavigationItem| wanted(Wanted::FolderIn(&account, &folder), item);
    lemma_first_index_fits(items, fits);
    assert(fits(items[k]));
    let at = item_at(items, Wanted::FolderIn(&account, &folder)) as int;
    if at > k {
        assert(!fits(items[k]));
    }
    assert(fits(items[at]));
}

/// A session points to a line of its account, and to none where the account is gone.
pub proof fn law_session_points_into_its_account(
    accounts: Seq<Account>,
    items: Seq<NavigationItem>,
    session: SessionState,
)
    requires
        items.len() <= usize::MAX,
    ensures
        session_line(accounts, items, session) matches Some(line) ==> {
            &&& line < items.len()
            &&& session.account_id matches Some(account) && match items[line as int] {
                NavigationItem::Account { id, .. } => id@ == account@,
                NavigationItem::Folder { account_id, .. } => account_id@ == account@,
            }
        },
        session.account_id is None ==> session_line(accounts, items, session) is None,
        (session.account_id matches Some(account) && forall|i: int|
            0 <= i < accounts.len() ==> (#[trigger] accounts[i]).id@ != account@) ==> session_line(
            accounts,
            items,
            session,
        ) is None,
{
    if session.account_id is Some {
        let id = session.account_id->0;
        lemma_account_at(accounts, id@);
        let k = crate::model::account_at(accounts, id@) as int;
        let any = |item: NavigationItem| wanted(Wanted::FolderOf(&id), item);
        lemma_first_index_fits(items, any);
        let itself = |item: NavigationItem| wanted(Wanted::Account(&id), item);
        lemma_first_index_fits(items, itself);
        if session.folder_id is Some {
            let f = session.folder_id->0;
            let own = |item: NavigationItem| wanted(Wanted::FolderIn(&id, &f), item);
            lemma_first_index_fits(items, own);
        }
        if k < accounts.len() && accounts[k].default_folder_id is Some {
            let f = accounts[k].default_folder_id->0;
            let usual = |item: NavigationItem| wanted(Wanted::FolderIn(&id, &f), item);
            lemma_first_index_fits(items, usual);
        }
    }
}

// ---------------------------------------------------------------------------
// Moving a folder
// ---------------------------------------------------------------------------

/// Whether a folder lies directly in another, by the first entry with its id.
pub open spec fn directly_in(folders: Seq<Folder>, inner: Seq<char>, outer: Seq<char>) -> bool {
    exists|k: int|
        {
            &&& 0 <= k < folders.len()
            &&& (#[trigger] folders[k]).id@ == inner
            &&& folders[k].parent matches FolderParent::Folder { folder_id } && folder_id@ == outer
            &&& forall|j: int| 0 <= j < k ==> (#[trigger] folders[j]).id@ != inner
        }
}

/// Whether folders lie one in the next.
pub open spec fn is_chain(folders: Seq<Folder>, chain: Seq<Seq<char>>) -> bool {
    forall|i: int|
        0 <= i < chain.len() - 1 ==> directly_in(folders, #[trigger] chain[i], chain[i + 1])
}

proof fn lemma_enclosing(folders: Seq<Folder>, inner: Seq<char>, outer: Seq<char>)
    ensures
        enclosing(folders, inner) == Some(outer) <==> directly_in(folders, inner, outer),
{
    lemma_folder_at(folders, inner);
    let k = folder_at(folders, inner) as int;
    if enclosing(folders, inner) == Some(outer) {
        assert(folders[k].id@ == inner);
    }
    if directly_in(folders, inner, outer) {
        let j = choose|j: int|
            {
                &&& 0 <= j < folders.len()
                &&& (#[trigger] folders[j]).id@ == inner
                &&& folders[j].parent matches FolderParent::Folder { folder_id } && folder_id@
                    == outer
                &&& forall|i: int| 0 <= i < j ==> (#[trigger] folders[i]).id@ != inner
            };
        assert(folders[j].id@ == inner);
        if k < j {
            assert(folders[k].id@ == inner);
        }
        if j < k {
            assert(folders[j].id@ != inner);
        }
    }
}

proof fn lemma_chain(folders: Seq<Folder>, id: Seq<char>, n: nat) -> (chain: Seq<Seq<char>>)
    requires
        outward(folders, id, n) is Some,
    ensures
        chain.len() == n + 1,
        chain[0] == id,
        chain.last() == outward(folders, id, n)->0,
        is_chain(folders, chain),
    decreases n,
{
    if n == 0 {
        seq![id]
    } else {
        let before = lemma_chain(folders, id, (n - 1) as nat);
        let outer = outward(folders, id, n)->0;
        lemma_enclosing(folders, before.last(), outer);
        let chain = before.push(outer);
        assert forall|i: int| 0 <= i < chain.len() - 1 implies directly_in(
            folders,
            #[trigger] chain[i],
            chain[i + 1],
        ) by {
            if i < before.len() - 1 {
                assert(directly_in(folders, before[i], before[i + 1]));
            }
        }
        chain
    }
}

proof fn lemma_chain_leads(folders: Seq<Folder>, chain: Seq<Seq<char>>, n: nat)
    requires
        is_chain(folders, chain),
        n < chain.len(),
    ensures
        outward(folders, chain[0], n) == Some(chain[n as int]),
    decreases n,
{
    if n > 0 {
        lemma_chain_leads(folders, chain, (n - 1) as nat);
        assert(directly_in(folders, chain[n - 1], chain[n - 1 + 1]));
        lemma_enclosing(folders, chain[n - 1], chain[n as int]);
    }
}

/// A folder lies in another just where a chain of folders leads from the one to the other,
/// each directly in the next.
pub proof fn law_folder_lies_in_another_by_a_chain(
    folders: Seq<Folder>,
    id: Seq<char>,
    ancestor: Seq<char>,
)
    ensures
        lies_in(folders, id, ancestor) <==> exists|chain: Seq<Seq<char>>|
            {
                &&& #[trigger] is_chain(folders, chain)
                &&& chain.len() > 1
                &&& chain[0] == id
                &&& chain.last() == ancestor
            },
{
    if lies_in(folders, id, ancestor) {
        let n = choose|n: nat| n > 0 && #[trigger] outward(folders, id, n) == Some(ancestor);
        let chain = lemma_chain(folders, id, n);
        assert(is_chain(folders, chain));
    }
    if exists|chain: Seq<Seq<char>>|
        {
            &&& #[trigger] is_chain(folders, chain)
            &&& chain.len() > 1
            &&& chain[0] == id
            &&& chain.last() == ancestor
        } {
        let chain = choose|chain: Seq<Seq<char>>|
            {
                &&& #[trigger] is_chain(folders, chain)
                &&& chain.len() > 1
                &&& chain[0] == id
                &&& chain.last() == ancestor
            };
        lemma_chain_leads(folders, chain, (chain.len() - 1) as nat);
    }
}

/// Whether a folder may go into the folder of a line: one of the same account, other than
/// itself and what lies in it.
pub open spec fn may_take(
    folders: Seq<Folder>,
    account: Seq<char>,
    source: Seq<char>,
    item: NavigationItem,
) -> bool {
    &&& item matches NavigationItem::Folder { id, account_id, .. }
    &&& account_id@ == account
    &&& id@ != source
    &&& !lies_in(folders, id@, source)
}

proof fn lemma_targets(
    folders: Seq<Folder>,
    items: Seq<NavigationItem>,
    account: Seq<char>,
    source: Seq<char>,
    n: nat,
)
    requires
        n <= items.len(),
    ensures
        ({
            let lines = items.take(n as int).filter(
                |item: NavigationItem| may_take(folders, account, source, item),
            );
            let targets = targets_upto(folders, items, account, source, n);
            &&& targets.len() == lines.len() + 1
            &&& targets[0] is AccountRoot
            &&& forall|i: int|
                0 <= i < lines.len() ==> (#[trigger] targets[i + 1]) == (
                FolderReparentTarget::Folder {
                    folder_id: lines[i]->Folder_id,
                    display_name: lines[i]->Folder_name,
                    depth: lines[i]->depth,
                })
        }),
    decreases n,
{
    reveal(Seq::filter);
    let fits = |item: NavigationItem| may_take(folders, account, source, item);
    if n > 0 {
        lemma_targets(folders, items, account, source, (n - 1) as nat);
        assert(items.take(n as int).drop_last() =~= items.take(n - 1));
        assert(items.take(n as int).last() == items[n - 1]);
        let before = items.take(n - 1).filter(fits);
        let lines = items.take(n as int).filter(fits);
        let earlier = targets_upto(folders, items, account, source, (n - 1) as nat);
        let targets = targets_upto(folders, items, account, source, n);
        assert(can_hold(folders, items[n - 1], account, source) == fits(items[n - 1]));
        assert forall|i: int| 0 <= i < lines.len() implies (#[trigger] targets[i + 1]) == (
        FolderReparentTarget::Folder {
            folder_id: lines[i]->Folder_id,
            display_name: lines[i]->Folder_name,
            depth: lines[i]->depth,
        }) by {
            if i < before.len() {
                assert(earlier[i + 1] == targets[i + 1]);
            }
        }
    } else {
        assert(items.take(0) =~= Seq::<NavigationItem>::empty());
    }
}

/// A folder is offered the top of its account, then every folder that may take it, in the
/// order of the tree, and nothing else.
pub proof fn law_every_place_is_offered(
    folders: Seq<Folder>,
    items: Seq<NavigationItem>,
    account: Seq<char>,
    source: Seq<char>,
)
    ensures
        ({
            let lines = items.filter(
                |item: NavigationItem| may_take(folders, account, source, item),
            );
            let targets = reparent_targets(folders, items, account, source);
            &&& targets.len() == lines.len() + 1
            &&& targets[0] is AccountRoot
            &&& forall|i: int|
                0 <= i < lines.len() ==> (#[trigger] targets[i + 1]) == (
                FolderReparentTarget::Folder {
                    folder_id: lines[i]->Folder_id,
                    display_name: lines[i]->Folder_name,
                    depth: lines[i]->depth,
                })
        }),
{
    lemma_targets(folders, items, account, source, items.len());
    assert(items.take(items.len() as int) =~= items);
}

/// The place where a folder lies is selected to begin with, where it is offered.
pub proof fn law_current_place_is_selected(
    targets: Seq<FolderReparentTarget>,
    parent: FolderParent,
    k: int,
)
    requires
        targets.len() <= usize::MAX,
        0 <= k < targets.len(),
        match (targets[k], parent) {
            (FolderReparentTarget::AccountRoot, FolderParent::Account { .. }) => true,
            (
                FolderReparentTarget::Folder { folder_id, .. },
                FolderParent::Folder { folder_id: id },
            ) => folder_id@ == id@,
            _ => false,
        },
    ensures
        current_target(targets, parent) <= k,
        match (targets[current_target(targets, parent) as int], parent) {
            (FolderReparentTarget::AccountRoot, FolderParent::Account { .. }) => true,
            (
                FolderReparentTarget::Folder { folder_id, .. },
                FolderParent::Folder { folder_id: id },
            ) => folder_id@ == id@,
            _ => false,
        },
{
    let fits = |t: FolderReparentTarget| target_is(t, parent);
    lemma_first_index_fits(targets, fits);
    assert(fits(targets[k]));
    let at = first_index(targets, fits) as int;
    if at > k {
        assert(!fits(targets[k]));
    }
    assert(fits(targets[at]));
}

// ---------------------------------------------------------------------------
// What folders hold
// ---------------------------------------------------------------------------

/// Each folder holds the notes that belong to it, all of them, in their order; one that
/// none belongs to is not known.
pub proof fn law_notes_are_sorted_by_folder(notes: Seq<NoteSummary>, folder: Seq<char>)
    ensures
        rows_by_folder(notes).dom().contains(folder) <==> exists|i: int|
            0 <= i < notes.len() && (#[trigger] notes[i]).folder_id@ == folder,
        rows_by_folder(notes).dom().contains(folder) ==> rows_by_folder(notes)[folder]
            == notes.filter(|n: NoteSummary| n.folder_id@ == folder),
    decreases notes.len(),
{
    reveal(Seq::filter);
    let fits = |n: NoteSummary| n.folder_id@ == folder;
    if notes.len() > 0 {
        let before = notes.drop_last();
        let note = notes.last();
        law_notes_are_sorted_by_folder(before, folder);
        assert forall|i: int| 0 <= i < before.len() implies (#[trigger] before[i]) == notes[i] by {}
        if note.folder_id@ == folder {
            assert(notes[notes.len() - 1].folder_id@ == folder);
            if !rows_by_folder(before).dom().contains(folder) {
                lemma_none_fits(before, fits);
                assert(seq![note] =~= before.filter(fits).push(note));
            }
        } else {
            if rows_by_folder(before).dom().contains(folder) {
                let i = choose|i: int|
                    0 <= i < before.len() && (#[trigger] before[i]).folder_id@ == folder;
                assert(notes[i].folder_id@ == folder);
            }
            if exists|i: int| 0 <= i < notes.len() && (#[trigger] notes[i]).folder_id@ == folder {
                let i = choose|i: int|
                    0 <= i < notes.len() && (#[trigger] notes[i]).folder_id@ == folder;
                assert(before[i].folder_id@ == folder);
            }
        }
    }
}

proof fn lemma_none_fits(notes: Seq<NoteSummary>, fits: spec_fn(NoteSummary) -> bool)
    requires
        forall|i: int| 0 <= i < notes.len() ==> !fits(#[trigger] notes[i]),
    ensures
        notes.filter(fits) == Seq::<NoteSummary>::empty(),
    decreases notes.len(),
{
    reveal(Seq::filter);
    if notes.len() > 0 {
        assert forall|i: int| 0 <= i < notes.drop_last().len() implies !fits(
            #[trigger] notes.drop_last()[i],
        ) by {
            assert(notes.drop_last()[i] == notes[i]);
        }
        lemma_none_fits(notes.drop_last(), fits);
    }
}

/// The folders that belong to other accounts.
pub open spec fn of_other_accounts(folders: Seq<Folder>, account: Seq<char>) -> Seq<Folder> {
    folders.filter(|f: Folder| f.account_id@ != account)
}

proof fn lemma_others(folders: Seq<Folder>, account: Seq<char>, n: nat)
    requires
        n <= folders.len(),
    ensures
        others_upto(folders, account, n) == of_other_accounts(folders.take(n as int), account),
    decreases n,
{
    reveal(Seq::filter);
    if n > 0 {
        lemma_others(folders, account, (n - 1) as nat);
        assert(folders.take(n as int).drop_last() =~= folders.take(n - 1));
        assert(folders.take(n as int).last() == folders[n - 1]);
    } else {
        assert(folders.take(0) =~= Seq::<Folder>::empty());
    }
}

/// After a folder was created, the folders of the other accounts stay as they are, those of
/// its own account are those that were read, the tree is made of them, and the line of the
/// new folder is selected.
pub proof fn law_new_folder_is_selected(v: AppModel, folder: Folder, found: Vec<Folder>)
    requires
        tree(
            v.data.accounts,
            of_other_accounts(v.data.folders, folder.account_id@) + found@,
        ).len() <= usize::MAX,
    ensures
        ({
            let next = new_folder_shown(v, folder, Ok(found));
            let folders = of_other_accounts(v.data.folders, folder.account_id@) + found@;
            &&& next.data.folders == folders
            &&& next.data.navigation == tree(v.data.accounts, folders)
            &&& next.data.accounts == v.data.accounts
            &&& next.orders == v.orders
            &&& (exists|i: int|
                0 <= i < next.data.navigation.len() && is_line_of(
                    #[trigger] next.data.navigation[i],
                    RefreshContext::Folder(folder.id),
                )) ==> {
                &&& next.shown.selected_navigation < next.data.navigation.len()
                &&& is_line_of(
                    next.data.navigation[next.shown.selected_navigation as int],
                    RefreshContext::Folder(folder.id),
                )
                &&& next.search is Inactive
            }
        }),
{
    reveal(new_folder_shown);
    lemma_others(v.data.folders, folder.account_id@, v.data.folders.len());
    assert(v.data.folders.take(v.data.folders.len() as int) =~= v.data.folders);
    let next = new_folder_shown(v, folder, Ok(found));
    assert(next.data.folders == of_other_accounts(v.data.folders, folder.account_id@) + found@);
    let fits = |item: NavigationItem| wanted(Wanted::Folder(&folder.id), item);
    lemma_first_index_fits(next.data.navigation, fits);
    assert forall|i: int| 0 <= i < next.data.navigation.len() implies fits(
        #[trigger] next.data.navigation[i],
    ) == is_line_of(next.data.navigation[i], RefreshContext::Folder(folder.id)) by {}
}

/// After a folder of the selected account was deleted, the same place in the tree stays
/// selected, or the last line where the tree has become shorter; and no note is searched
/// for.
pub proof fn law_deletion_keeps_the_place(
    v: AppModel,
    deleted: crate::model::DeletedFolder,
)
    ensures
        ({
            let next = folder_deleted(v, deleted);
            let lines = next.data.navigation.len();
            let at = v.shown.selected_navigation;
            let same = selected_item(v) matches Some(item) && match item {
                NavigationItem::Account { id, .. } => id@ == deleted.account_id@,
                NavigationItem::Folder { account_id, .. } => account_id@ == deleted.account_id@,
            };
            &&& at < lines ==> next.shown.selected_navigation == at
            &&& same && 0 < lines <= at ==> next.shown.selected_navigation == lines - 1
            &&& lines == 0 ==> next.shown.selected_navigation == 0
            &&& next.search is Inactive
            &&& next.shown.focus is Navigation
        }),
{
    reveal(folder_deleted);
}

} // verus!
