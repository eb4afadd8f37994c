//! Creating, renaming, moving and deleting folders.

use vstd::prelude::*;

use crate::app::{
    complain, first_do2, first_do4, first_do5, refused_offline, say, selected_item, shown_account,
    with_order, App, AppModel, Background, DataModel, Shown,
};
use crate::browsing::ask;
use crate::jobs::UpdateJob;
use crate::model::{
    AccountId, DeletedFolder, Folder, FolderId, FolderParent, NotesError,
};
use crate::navigation::{
    build_navigation, current_target, find_current_target, find_item, first_index, item_at,
    lemma_first_index, reparent_destinations, reparent_targets, target_is, target_parent, tree,
    FolderReparentTarget, NavigationItem, Wanted,
};
use crate::text;
use crate::text::{cat, cat3, owned, trim};
use crate::workflow::{
    message_text, popup_sound, Await, Effect, Focus, Message, Order, OrderModel, Popup, PopupModel, Search,
    SearchState, Step, UpdateModel,
};

verus! {

/// What a change begins with: nothing while another is under way, a refusal where the
/// data comes from the cache, else `next`.
pub open spec fn gated(v: AppModel, next: AppModel) -> AppModel {
    if v.background.update_running {
        v
    } else if !(v.shown.data_source is Live) {
        refused_offline(v)
    } else {
        next
    }
}

/// The client with a change under way, and a message that says so.
pub open spec fn updating(v: AppModel, job: UpdateModel, text: Seq<char>) -> AppModel {
    say(with_order(AppModel {
        background: Background { update_running: true, ..v.background },
        ..v
    }, OrderModel::Update(job)), text)
}

/// The client with a popup open.
pub open spec fn with_popup(v: AppModel, popup: PopupModel) -> AppModel {
    AppModel { popup: Some(popup), ..v }
}

impl App {
    /// Whether a change can begin; refuses it where the data comes from the cache.
    pub fn can_update(&mut self) -> (r: bool)
        ensures
            r == (!old(self)@.background.update_running && old(self)@.shown.data_source is Live),
            r ==> final(self)@ == old(self)@,
            !r ==> forall|next: AppModel| final(self)@ == #[trigger] gated(old(self)@, next),
            old(self).wf() ==> final(self).wf(),
    {
        if self.background.update_running {
            return false;
        }
        self.require_live_backend()
    }

    pub fn update(&mut self, job: UpdateJob, text: String)
        ensures
            final(self)@ == updating(old(self)@, job@, text@),
            old(self).wf() ==> final(self).wf(),
    {
        self.background.update_running = true;
        self.order(Order::Update(job));
        self.say(text);
    }

    pub fn open_popup(&mut self, popup: Popup)
        ensures
            final(self)@ == with_popup(old(self)@, popup@),
            old(self).wf() && popup_sound(popup@) ==> final(self).wf(),
    {
        self.popup = Some(popup);
    }
}

// ---------------------------------------------------------------------------
// Creating
// ---------------------------------------------------------------------------

#[verifier::opaque]
pub open spec fn folder_form_opened(v: AppModel) -> AppModel {
    gated(
        v,
        match shown_account(v) {
            Some(account_id) => with_popup(
                v,
                PopupModel::CreateFolder { account_id, name: ""@, cursor: 0 },
            ),
            None => complain(v, "ERROR: select an account before creating a folder"@),
        },
    )
}

pub open spec fn empty_name_refused(v: AppModel, popup: PopupModel) -> AppModel {
    complain(with_popup(v, popup), "ERROR: folder name cannot be empty"@)
}

#[verifier::opaque]
pub open spec fn folder_creating(
    v: AppModel,
    account_id: AccountId,
    name: Seq<char>,
    cursor: usize,
) -> AppModel {
    if v.background.update_running {
        v
    } else if trim(name).len() == 0 {
        empty_name_refused(v, PopupModel::CreateFolder { account_id, name, cursor })
    } else {
        updating(
            v,
            UpdateModel::CreateFolder { account_id, name, cursor },
            "Creating folder…"@,
        )
    }
}

/// A folder was created: its account is read anew.
#[verifier::opaque]
pub open spec fn folder_created(v: AppModel, folder: Folder) -> (AppModel, Option<Effect>) {
    ask(
        AppModel { data: DataModel { rows: v.data.rows.remove(folder.id@), ..v.data }, ..v },
        Await::FoldersFetched { folder },
        Effect::Folders(folder.account_id),
    )
}

/// The folders among the first `n` that belong to other accounts.
pub open spec fn others_upto(folders: Seq<Folder>, account: Seq<char>, n: nat) -> Seq<Folder>
    decreases n,
{
    if n == 0 {
        seq![]
    } else {
        let before = others_upto(folders, account, (n - 1) as nat);
        if folders[n - 1].account_id@ != account {
            before.push(folders[n - 1])
        } else {
            before
        }
    }
}

/// The client with other folders, and the tree that they make.
pub open spec fn with_folders(v: AppModel, folders: Seq<Folder>) -> AppModel {
    AppModel {
        data: DataModel { folders, navigation: tree(v.data.accounts, folders), ..v.data },
        ..v
    }
}

/// The folders of an account that were read after one was created. That one is shown.
#[verifier::opaque]
pub open spec fn new_folder_shown(
    v: AppModel,
    folder: Folder,
    found: Result<Vec<Folder>, NotesError>,
) -> AppModel {
    match found {
        Ok(folders) => {
            let next = with_folders(
                v,
                others_upto(v.data.folders, folder.account_id@, v.data.folders.len()) + folders@,
            );
            let line = item_at(next.data.navigation, Wanted::Folder(&folder.id));
            if line < next.data.navigation.len() {
                first_do4(
                    AppModel {
                        shown: Shown { selected_navigation: line as usize, ..next.shown },
                        search: Search::Inactive,
                        ..next
                    },
                    Step::LoadNotes { persist: true, browse: false },
                    Step::Say(Message::CreatedFolder(folder.name)),
                    Step::PersistSession,
                    Step::Snapshot,
                )
            } else {
                complain(next, "Folder was created, but could not be found after reload"@)
            }
        },
        Err(e) => complain(v, "Folder was created, but reload failed: "@ + e.message@),
    }
}

pub open spec fn child_form(
    account_id: AccountId,
    parent_folder_id: FolderId,
    parent_folder_name: String,
) -> PopupModel {
    PopupModel::CreateChildFolder {
        account_id,
        parent_folder_id,
        parent_folder_name,
        name: ""@,
        cursor: 0,
    }
}

#[verifier::opaque]
pub open spec fn child_form_opened(v: AppModel) -> AppModel {
    gated(
        v,
        match selected_item(v) {
            Some(NavigationItem::Folder { id, account_id, name, .. }) => with_popup(
                v,
                child_form(account_id, id, name),
            ),
            _ => complain(v, "ERROR: select a parent folder before creating a subfolder"@),
        },
    )
}

#[verifier::opaque]
pub open spec fn queued_child_form_opened(
    v: AppModel,
    account_id: AccountId,
    parent_folder_id: FolderId,
    parent_folder_name: String,
) -> AppModel {
    if item_at(v.data.navigation, Wanted::FolderIn(&account_id, &parent_folder_id))
        < v.data.navigation.len() {
        with_popup(v, child_form(account_id, parent_folder_id, parent_folder_name))
    } else {
        say(
            v,
            "Pending child-folder creation cancelled: parent folder is no longer available"@,
        )
    }
}

#[verifier::opaque]
pub open spec fn child_creating(
    v: AppModel,
    account_id: AccountId,
    parent_folder_id: FolderId,
    parent_folder_name: String,
    name: Seq<char>,
    cursor: usize,
) -> AppModel {
    if v.background.update_running {
        v
    } else if trim(name).len() == 0 {
        empty_name_refused(
            v,
            PopupModel::CreateChildFolder {
                account_id,
                parent_folder_id,
                parent_folder_name,
                name,
                cursor,
            },
        )
    } else {
        updating(
            v,
            UpdateModel::CreateChildFolder {
                account_id,
                parent_folder_id,
                parent_folder_name,
                name,
                cursor,
            },
            "Creating subfolder…"@,
        )
    }
}

/// The folders among the first `n` that have another id.
pub open spec fn without_upto(folders: Seq<Folder>, id: Seq<char>, n: nat) -> Seq<Folder>
    decreases n,
{
    if n == 0 {
        seq![]
    } else {
        let before = without_upto(folders, id, (n - 1) as nat);
        if folders[n - 1].id@ != id {
            before.push(folders[n - 1])
        } else {
            before
        }
    }
}

/// A folder was created in another. It is shown.
#[verifier::opaque]
pub open spec fn child_created(v: AppModel, folder: Folder) -> AppModel {
    let next = with_folders(
        v,
        without_upto(v.data.folders, folder.id@, v.data.folders.len()).push(folder),
    );
    let line = item_at(next.data.navigation, Wanted::Folder(&folder.id));
    if line < next.data.navigation.len() {
        first_do4(
            AppModel {
                shown: Shown {
                    selected_navigation: line as usize,
                    preview_scroll: 0,
                    focus: Focus::Navigation,
                    ..next.shown
                },
                search: Search::Inactive,
                ..next
            },
            Step::LoadNotes { persist: true, browse: false },
            Step::Say(Message::CreatedSubfolder(folder.name)),
            Step::Snapshot,
            Step::PersistSession,
        )
    } else {
        complain(next, "Subfolder was created, but could not be found after rebuild"@)
    }
}

fn is_blank(name: &str) -> (r: bool)
    ensures
        r == (trim(name@).len() == 0),
{
    let trimmed = text::trimmed(name);
    trimmed.as_str().is_empty()
}

fn other_folders(folders: &Vec<Folder>, account: &AccountId) -> (r: Vec<Folder>)
    ensures
        r@ == others_upto(folders@, account@, folders@.len()),
{
    let mut out: Vec<Folder> = Vec::new();
    let mut i: usize = 0;
    while i < folders.len()
        invariant
            i <= folders@.len(),
            out@ == others_upto(folders@, account@, i as nat),
        decreases folders@.len() - i,
    {
        if !folders[i].account_id.same(account) {
            out.push(folders[i].clone());
        }
        i = i + 1;
    }
    out
}

fn folders_without(folders: &Vec<Folder>, id: &FolderId) -> (r: Vec<Folder>)
    ensures
        r@ == without_upto(folders@, id@, folders@.len()),
{
    let mut out: Vec<Folder> = Vec::new();
    let mut i: usize = 0;
    while i < folders.len()
        invariant
            i <= folders@.len(),
            out@ == without_upto(folders@, id@, i as nat),
        decreases folders@.len() - i,
    {
        if !folders[i].id.same(id) {
            out.push(folders[i].clone());
        }
        i = i + 1;
    }
    out
}

impl App {
    fn put_folders(&mut self, folders: Vec<Folder>)
        ensures
            final(self)@ == with_folders(old(self)@, folders@),
            old(self).wf() ==> final(self).wf(),
    {
        self.data.folders = folders;
        self.data.navigation = build_navigation(&self.data.accounts, &self.data.folders);
    }

    pub fn begin_create_folder(&mut self)
        ensures
            final(self)@ == folder_form_opened(old(self)@),
            old(self).wf() ==> final(self).wf(),
    {
        proof {
            reveal(folder_form_opened);
        }
        if !self.can_update() {
            return;
        }
        match self.selected_account_id() {
            Some(account_id) => self.open_popup(
                Popup::CreateFolder { account_id, name: owned(""), cursor: 0 },
            ),
            None => self.complain(owned("ERROR: select an account before creating a folder")),
        }
    }

    pub fn start_create_folder_worker(&mut self, account_id: AccountId, name: String, cursor: usize)
        ensures
            final(self)@ == folder_creating(old(self)@, account_id, name@, cursor),
            old(self).wf() ==> final(self).wf(),
    {
        proof {
            reveal(folder_creating);
        }
        if self.background.update_running {
            return;
        }
        if is_blank(name.as_str()) {
            self.open_popup(Popup::CreateFolder { account_id, name, cursor });
            self.complain(owned("ERROR: folder name cannot be empty"));
            return;
        }
        self.update(
            UpdateJob::CreateFolder { account_id, name, cursor },
            owned("Creating folder…"),
        );
    }

    pub fn finish_folder_created(&mut self, folder: Folder) -> (r: Option<Effect>)
        ensures
            (final(self)@, r) == folder_created(old(self)@, folder),
            old(self).wf() ==> final(self).wf(),
    {
        proof {
            reveal(folder_created);
        }
        self.data.rows.remove(&folder.id);
        let account = folder.account_id.clone();
        self.ask(Await::FoldersFetched { folder }, Effect::Folders(account))
    }

    pub fn show_new_folder(&mut self, folder: Folder, found: Result<Vec<Folder>, NotesError>)
        ensures
            final(self)@ == new_folder_shown(old(self)@, folder, found),
            old(self).wf() ==> final(self).wf(),
    {
        proof {
            reveal(new_folder_shown);
        }
        match found {
            Ok(folders) => {
                let mut folders = folders;
                let mut all = other_folders(&self.data.folders, &folder.account_id);
                all.append(&mut folders);
                self.put_folders(all);
                match find_item(&self.data.navigation, Wanted::Folder(&folder.id)) {
                    Some(line) => {
                        self.shown.selected_navigation = line;
                        self.search = SearchState::Inactive;
                        self.first_do4(
                            Step::LoadNotes { persist: true, browse: false },
                            Step::Say(Message::CreatedFolder(folder.name)),
                            Step::PersistSession,
                            Step::Snapshot,
                        );
                    },
                    None => self.complain(
                        owned("Folder was created, but could not be found after reload"),
                    ),
                }
            },
            Err(e) => self.complain(
                cat("Folder was created, but reload failed: ", e.message.as_str()),
            ),
        }
    }

    pub fn begin_create_child_folder(&mut self)
        ensures
            final(self)@ == child_form_opened(old(self)@),
            old(self).wf() ==> final(self).wf(),
    {
        proof {
            reveal(child_form_opened);
        }
        if !self.can_update() {
            return;
        }
        if self.shown.selected_navigation < self.data.navigation.len() {
            if let NavigationItem::Folder { id, account_id, name, .. } =
                &self.data.navigation[self.shown.selected_navigation] {
                let popup = Popup::CreateChildFolder {
                    account_id: account_id.clone(),
                    parent_folder_id: id.clone(),
                    parent_folder_name: name.clone(),
                    name: owned(""),
                    cursor: 0,
                };
                self.open_popup(popup);
                return;
            }
        }
        self.complain(owned("ERROR: select a parent folder before creating a subfolder"));
    }

    pub fn open_queued_create_child_folder(
        &mut self,
        account_id: AccountId,
        parent_folder_id: FolderId,
        parent_folder_name: String,
    )
        ensures
            final(self)@ == queued_child_form_opened(
                old(self)@,
                account_id,
                parent_folder_id,
                parent_folder_name,
            ),
            old(self).wf() ==> final(self).wf(),
    {
        proof {
            reveal(queued_child_form_opened);
        }
        let line = find_item(&self.data.navigation, Wanted::FolderIn(&account_id, &parent_folder_id));
        if line.is_none() {
            self.say(
                owned(
                    "Pending child-folder creation cancelled: parent folder is no longer available",
                ),
            );
            return;
        }
        self.open_popup(
            Popup::CreateChildFolder {
                account_id,
                parent_folder_id,
                parent_folder_name,
                name: owned(""),
                cursor: 0,
            },
        );
    }

    pub fn start_create_child_folder_worker(
        &mut self,
        account_id: AccountId,
        parent_folder_id: FolderId,
        parent_folder_name: String,
        name: String,
        cursor: usize,
    )
        ensures
            final(self)@ == child_creating(
                old(self)@,
                account_id,
                parent_folder_id,
                parent_folder_name,
                name@,
                cursor,
            ),
            old(self).wf() ==> final(self).wf(),
    {
        proof {
            reveal(child_creating);
        }
        if self.background.update_running {
            return;
        }
        if is_blank(name.as_str()) {
            self.open_popup(
                Popup::CreateChildFolder {
                    account_id,
                    parent_folder_id,
                    parent_folder_name,
                    name,
                    cursor,
                },
            );
            self.complain(owned("ERROR: folder name cannot be empty"));
            return;
        }
        self.update(
            UpdateJob::CreateChildFolder {
                account_id,
                parent_folder_id,
                parent_folder_name,
                name,
                cursor,
            },
            owned("Creating subfolder…"),
        );
    }

    pub fn finish_child_folder_created(&mut self, folder: Folder)
        ensures
            final(self)@ == child_created(old(self)@, folder),
            old(self).wf() ==> final(self).wf(),
    {
        proof {
            reveal(child_created);
        }
        let mut all = folders_without(&self.data.folders, &folder.id);
        all.push(folder.clone());
        self.put_folders(all);
        match find_item(&self.data.navigation, Wanted::Folder(&folder.id)) {
            Some(line) => {
                self.shown.selected_navigation = line;
                self.search = SearchState::Inactive;
                self.shown.preview_scroll = 0;
                self.shown.focus = Focus::Navigation;
                self.first_do4(
                    Step::LoadNotes { persist: true, browse: false },
                    Step::Say(Message::CreatedSubfolder(folder.name)),
                    Step::Snapshot,
                    Step::PersistSession,
                );
            },
            None => self.complain(
                owned("Subfolder was created, but could not be found after rebuild"),
            ),
        }
    }
}

// ---------------------------------------------------------------------------
// Renaming and moving
// ---------------------------------------------------------------------------

#[verifier::opaque]
pub open spec fn rename_form_opened(v: AppModel) -> AppModel {
    gated(
        v,
        match selected_item(v) {
            Some(NavigationItem::Folder { id, account_id, name, .. }) => with_popup(
                v,
                PopupModel::RenameFolder {
                    account_id,
                    folder_id: id,
                    original_name: name,
                    name: name@,
                    cursor: name@.len() as usize,
                },
            ),
            _ => complain(v, "ERROR: select a folder before renaming"@),
        },
    )
}

#[verifier::opaque]
pub open spec fn folder_renaming(
    v: AppModel,
    account_id: AccountId,
    folder_id: FolderId,
    original_name: String,
    name: Seq<char>,
    cursor: usize,
) -> AppModel {
    if v.background.update_running {
        v
    } else if trim(name).len() == 0 {
        empty_name_refused(
            v,
            PopupModel::RenameFolder { account_id, folder_id, original_name, name, cursor },
        )
    } else if name == original_name@ {
        say(v, "Folder name unchanged"@)
    } else {
        updating(
            v,
            UpdateModel::RenameFolder { account_id, folder_id, original_name, name, cursor },
            "Renaming folder…"@,
        )
    }
}

/// Folders with one of them replaced by what it has become.
pub open spec fn folder_replaced(folders: Seq<Folder>, folder: Folder) -> Seq<Folder> {
    let k = first_index(
        folders,
        |f: Folder| f.id@ == folder.id@ && f.account_id@ == folder.account_id@,
    );
    if k < folders.len() {
        folders.update(k as int, folder)
    } else {
        folders
    }
}

/// The client with a folder as it has become, which is selected.
#[verifier::opaque]
pub open spec fn folder_changed(v: AppModel, folder: Folder) -> AppModel {
    let next = with_folders(v, folder_replaced(v.data.folders, folder));
    let line = item_at(next.data.navigation, Wanted::FolderIn(&folder.account_id, &folder.id));
    if line < next.data.navigation.len() {
        AppModel { shown: Shown { selected_navigation: line as usize, ..next.shown }, ..next }
    } else {
        next
    }
}

/// A folder was renamed or moved.
#[verifier::opaque]
pub open spec fn folder_change_told(v: AppModel, folder: Folder, message: Message) -> AppModel {
    first_do2(
        say(folder_changed(v, folder), message_text(message)),
        Step::Snapshot,
        Step::PrefixWarning(message),
    )
}

/// The first folder with an id in an account.
pub open spec fn folder_in(folders: Seq<Folder>, account: Seq<char>, id: Seq<char>) -> nat {
    first_index(folders, |f: Folder| f.id@ == id && f.account_id@ == account)
}

#[verifier::opaque]
pub open spec fn reparent_form_opened(
    v: AppModel,
    account_id: AccountId,
    folder_id: FolderId,
    source_folder_name: String,
) -> AppModel {
    let k = folder_in(v.data.folders, account_id@, folder_id@) as int;
    if k < v.data.folders.len() {
        let original_parent = v.data.folders[k].parent;
        let destinations = reparent_targets(v.data.folders, v.data.navigation, account_id@, folder_id@);
        with_popup(
            v,
            PopupModel::ReparentFolder {
                account_id,
                folder_id,
                source_folder_name,
                original_parent,
                destinations,
                selected_destination: current_target(destinations, original_parent),
            },
        )
    } else {
        say(v, "Pending folder move cancelled: source folder is no longer available"@)
    }
}

#[verifier::opaque]
pub open spec fn reparent_begun(v: AppModel) -> AppModel {
    gated(
        v,
        match selected_item(v) {
            Some(NavigationItem::Folder { id, account_id, name, .. }) => reparent_form_opened(
                v,
                account_id,
                id,
                name,
            ),
            _ => complain(v, "ERROR: select a folder before moving it"@),
        },
    )
}

#[verifier::opaque]
pub open spec fn folder_reparenting(
    v: AppModel,
    account_id: AccountId,
    folder_id: FolderId,
    source_folder_name: String,
    original_parent: FolderParent,
    destinations: Seq<FolderReparentTarget>,
    selected_destination: usize,
) -> AppModel {
    if selected_destination >= destinations.len() {
        v
    } else if target_is(destinations[selected_destination as int], original_parent) {
        say(v, "Folder location unchanged"@)
    } else if v.background.update_running {
        v
    } else {
        updating(
            v,
            UpdateModel::ReparentFolder {
                account_id,
                folder_id,
                source_folder_name,
                original_parent,
                destinations,
                selected_destination,
                new_parent: target_parent(destinations[selected_destination as int]),
            },
            "Moving folder “"@ + source_folder_name@ + "”…"@,
        )
    }
}

pub fn find_folder_in(folders: &Vec<Folder>, account: &AccountId, id: &FolderId) -> (r: Option<
    usize,
>)
    ensures
        match r {
            Some(k) => k < folders@.len() && k == folder_in(folders@, account@, id@),
            None => folder_in(folders@, account@, id@) == folders@.len(),
        },
{
    let ghost fits = |f: Folder| f.id@ == id@ && f.account_id@ == account@;
    let mut i: usize = 0;
    while i < folders.len()
        invariant
            i <= folders@.len(),
            fits == (|f: Folder| f.id@ == id@ && f.account_id@ == account@),
            forall|k: int| 0 <= k < i ==> !fits(#[trigger] folders@[k]),
        decreases folders@.len() - i,
    {
        if folders[i].id.same(id) && folders[i].account_id.same(account) {
            proof {
                lemma_first_index(folders@, fits, i as int);
            }
            return Some(i);
        }
        i = i + 1;
    }
    proof {
        lemma_first_index(folders@, fits, i as int);
    }
    None
}

impl App {
    pub fn begin_rename_folder(&mut self)
        ensures
            final(self)@ == rename_form_opened(old(self)@),
            old(self).wf() ==> final(self).wf(),
    {
        proof {
            reveal(rename_form_opened);
        }
        if !self.can_update() {
            return;
        }
        if self.shown.selected_navigation < self.data.navigation.len() {
            if let NavigationItem::Folder { id, account_id, name, .. } =
                &self.data.navigation[self.shown.selected_navigation] {
                let popup = Popup::RenameFolder {
                    account_id: account_id.clone(),
                    folder_id: id.clone(),
                    original_name: name.clone(),
                    name: name.clone(),
                    cursor: name.as_str().unicode_len(),
                };
                self.open_popup(popup);
                return;
            }
        }
        self.complain(owned("ERROR: select a folder before renaming"));
    }

    pub fn start_rename_folder_worker(
        &mut self,
        account_id: AccountId,
        folder_id: FolderId,
        original_name: String,
        name: String,
        cursor: usize,
    )
        ensures
            final(self)@ == folder_renaming(
                old(self)@,
                account_id,
                folder_id,
                original_name,
                name@,
                cursor,
            ),
            old(self).wf() ==> final(self).wf(),
    {
        proof {
            reveal(folder_renaming);
        }
        if self.background.update_running {
            return;
        }
        if is_blank(name.as_str()) {
            self.open_popup(
                Popup::RenameFolder { account_id, folder_id, original_name, name, cursor },
            );
            self.complain(owned("ERROR: folder name cannot be empty"));
            return;
        }
        if name.as_str().eq(original_name.as_str()) {
            self.say(owned("Folder name unchanged"));
            return;
        }
        self.update(
            UpdateJob::RenameFolder { account_id, folder_id, original_name, name, cursor },
            owned("Renaming folder…"),
        );
    }

    fn change_folder(&mut self, folder: &Folder)
        ensures
            final(self)@ == folder_changed(old(self)@, *folder),
            old(self).wf() ==> final(self).wf(),
    {
        proof {
            reveal(folder_changed);
        }
        let place = find_folder_in(&self.data.folders, &folder.account_id, &folder.id);
        let mut all: Vec<Folder> = Vec::new();
        std::mem::swap(&mut all, &mut self.data.folders);
        if let Some(k) = place {
            all.set(k, folder.clone());
        }
        self.put_folders(all);
        let line = find_item(
            &self.data.navigation,
            Wanted::FolderIn(&folder.account_id, &folder.id),
        );
        if let Some(line) = line {
            self.shown.selected_navigation = line;
        }
    }

    pub fn finish_folder_change(&mut self, folder: Folder, message: Message)
        ensures
            final(self)@ == folder_change_told(old(self)@, folder, message),
            old(self).wf() ==> final(self).wf(),
    {
        proof {
            reveal(folder_change_told);
        }
        self.change_folder(&folder);
        self.say(message.words());
        self.first_do2(Step::Snapshot, Step::PrefixWarning(message));
    }

    pub fn finish_folder_renamed(&mut self, folder: Folder)
        ensures
            final(self)@ == folder_change_told(
                old(self)@,
                folder,
                Message::RenamedFolder(folder.name),
            ),
            old(self).wf() ==> final(self).wf(),
    {
        proof {
            reveal(folder_change_told);
        }
        let name = folder.name.clone();
        self.finish_folder_change(folder, Message::RenamedFolder(name));
    }

    pub fn finish_folder_reparented(&mut self, folder: Folder)
        ensures
            final(self)@ == folder_change_told(
                old(self)@,
                folder,
                Message::MovedFolder(folder.name),
            ),
            old(self).wf() ==> final(self).wf(),
    {
        proof {
            reveal(folder_change_told);
        }
        let name = folder.name.clone();
        self.finish_folder_change(folder, Message::MovedFolder(name));
    }

    pub fn open_reparent_folder_popup(
        &mut self,
        account_id: AccountId,
        folder_id: FolderId,
        source_folder_name: String,
    )
        ensures
            final(self)@ == reparent_form_opened(
                old(self)@,
                account_id,
                folder_id,
                source_folder_name,
            ),
            old(self).wf() ==> final(self).wf(),
    {
        proof {
            reveal(reparent_form_opened);
        }
        let original_parent = match find_folder_in(&self.data.folders, &account_id, &folder_id) {
            Some(k) => self.data.folders[k].parent.clone(),
            None => {
                self.say(
                    owned("Pending folder move cancelled: source folder is no longer available"),
                );
                return;
            },
        };
        let destinations = reparent_destinations(
            &self.data.folders,
            &self.data.navigation,
            &account_id,
            &folder_id,
        );
        let selected_destination = find_current_target(&destinations, &original_parent);
        self.open_popup(
            Popup::ReparentFolder {
                account_id,
                folder_id,
                source_folder_name,
                original_parent,
                destinations,
                selected_destination,
            },
        );
    }

    pub fn begin_reparent_folder(&mut self)
        ensures
            final(self)@ == reparent_begun(old(self)@),
            old(self).wf() ==> final(self).wf(),
    {
        proof {
            reveal(reparent_begun);
        }
        if !self.can_update() {
            return;
        }
        if self.shown.selected_navigation < self.data.navigation.len() {
            if let NavigationItem::Folder { id, account_id, name, .. } =
                &self.data.navigation[self.shown.selected_navigation] {
                let (account_id, id, name) = (account_id.clone(), id.clone(), name.clone());
                self.open_reparent_folder_popup(account_id, id, name);
                return;
            }
        }
        self.complain(owned("ERROR: select a folder before moving it"));
    }

    pub fn start_reparent_folder_worker(
        &mut self,
        account_id: AccountId,
        folder_id: FolderId,
        source_folder_name: String,
        original_parent: FolderParent,
        destinations: Vec<FolderReparentTarget>,
        selected_destination: usize,
    )
        ensures
            final(self)@ == folder_reparenting(
                old(self)@,
                account_id,
                folder_id,
                source_folder_name,
                original_parent,
                destinations@,
                selected_destination,
            ),
            old(self).wf() ==> final(self).wf(),
    {
        proof {
            reveal(folder_reparenting);
        }
        if selected_destination >= destinations.len() {
            return;
        }
        if destinations[selected_destination].matches_parent(&original_parent) {
            self.say(owned("Folder location unchanged"));
            return;
        }
        if self.background.update_running {
            return;
        }
        let new_parent = destinations[selected_destination].parent_id();
        let text = cat3("Moving folder “", source_folder_name.as_str(), "”…");
        self.update(
            UpdateJob::ReparentFolder {
                account_id,
                folder_id,
                source_folder_name,
                original_parent,
                destinations,
                selected_destination,
                new_parent,
            },
            text,
        );
    }
}

// ---------------------------------------------------------------------------
// Deleting
// ---------------------------------------------------------------------------

#[verifier::opaque]
pub open spec fn folder_deletion_offered(v: AppModel) -> AppModel {
    gated(
        v,
        match selected_item(v) {
            Some(NavigationItem::Folder { id, account_id, name, .. }) => with_popup(
                v,
                PopupModel::DeleteFolder { account_id, folder_id: id, folder_name: name },
            ),
            _ => complain(v, "ERROR: select a folder before deleting"@),
        },
    )
}

#[verifier::opaque]
pub open spec fn folder_deleting(
    v: AppModel,
    account_id: AccountId,
    folder_id: FolderId,
    folder_name: String,
) -> AppModel {
    if v.background.update_running {
        v
    } else {
        updating(
            v,
            UpdateModel::DeleteFolder { account_id, folder_id },
            "Deleting folder “"@ + folder_name@ + "”…"@,
        )
    }
}

/// The folders among the first `n` but the one that was deleted.
pub open spec fn remaining_upto(folders: Seq<Folder>, deleted: DeletedFolder, n: nat) -> Seq<Folder>
    decreases n,
{
    if n == 0 {
        seq![]
    } else {
        let before = remaining_upto(folders, deleted, (n - 1) as nat);
        let f = folders[n - 1];
        if f.id@ == deleted.folder_id@ && f.account_id@ == deleted.account_id@ {
            before
        } else {
            before.push(f)
        }
    }
}

/// The line to select after a deletion: the same place in the tree where the deleted
/// folder was of the selected account, as far as there is one.
pub open spec fn line_after_deletion(before: usize, same_account: bool, lines: nat) -> usize {
    if lines == 0 {
        0
    } else if same_account && before >= lines {
        (lines - 1) as usize
    } else {
        before
    }
}

#[verifier::opaque]
pub open spec fn folder_deleted(v: AppModel, deleted: DeletedFolder) -> AppModel {
    let same_account = shown_account(v) is Some && shown_account(v)->0@ == deleted.account_id@;
    let next = with_folders(
        AppModel {
            data: DataModel { rows: v.data.rows.remove(deleted.folder_id@), ..v.data },
            ..v
        },
        remaining_upto(v.data.folders, deleted, v.data.folders.len()),
    );
    first_do5(
        AppModel {
            shown: Shown {
                selected_navigation: line_after_deletion(
                    v.shown.selected_navigation,
                    same_account,
                    next.data.navigation.len(),
                ),
                preview_scroll: 0,
                focus: Focus::Navigation,
                ..next.shown
            },
            search: Search::Inactive,
            ..next
        },
        Step::LoadNotes { persist: false, browse: false },
        Step::Say(Message::DeletedFolder),
        Step::Snapshot,
        Step::PrefixWarning(Message::DeletedFolder),
        Step::PersistSession,
    )
}

fn folders_after_deletion(folders: &Vec<Folder>, deleted: &DeletedFolder) -> (r: Vec<Folder>)
    ensures
        r@ == remaining_upto(folders@, *deleted, folders@.len()),
{
    let mut out: Vec<Folder> = Vec::new();
    let mut i: usize = 0;
    while i < folders.len()
        invariant
            i <= folders@.len(),
            out@ == remaining_upto(folders@, *deleted, i as nat),
        decreases folders@.len() - i,
    {
        let f = &folders[i];
        if !(f.id.same(&deleted.folder_id) && f.account_id.same(&deleted.account_id)) {
            out.push(f.clone());
        }
        i = i + 1;
    }
    out
}

impl App {
    pub fn begin_delete_folder(&mut self)
        ensures
            final(self)@ == folder_deletion_offered(old(self)@),
            old(self).wf() ==> final(self).wf(),
    {
        proof {
            reveal(folder_deletion_offered);
        }
        if !self.can_update() {
            return;
        }
        if self.shown.selected_navigation < self.data.navigation.len() {
            if let NavigationItem::Folder { id, account_id, name, .. } =
                &self.data.navigation[self.shown.selected_navigation] {
                let popup = Popup::DeleteFolder {
                    account_id: account_id.clone(),
                    folder_id: id.clone(),
                    folder_name: name.clone(),
                };
                self.open_popup(popup);
                return;
            }
        }
        self.complain(owned("ERROR: select a folder before deleting"));
    }

    pub fn delete_folder_confirmed(
        &mut self,
        account_id: AccountId,
        folder_id: FolderId,
        folder_name: String,
    )
        ensures
            final(self)@ == folder_deleting(old(self)@, account_id, folder_id, folder_name),
            old(self).wf() ==> final(self).wf(),
    {
        proof {
            reveal(folder_deleting);
        }
        if self.background.update_running {
            return;
        }
        let text = cat3("Deleting folder “", folder_name.as_str(), "”…");
        self.update(UpdateJob::DeleteFolder { account_id, folder_id }, text);
    }

    pub fn finish_folder_deleted(&mut self, deleted: DeletedFolder)
        ensures
            final(self)@ == folder_deleted(old(self)@, deleted),
            old(self).wf() ==> final(self).wf(),
    {
        proof {
            reveal(folder_deleted);
        }
        let same_account = match self.selected_account_id() {
            Some(account) => account.same(&deleted.account_id),
            None => false,
        };
        self.data.rows.remove(&deleted.folder_id);
        let all = folders_after_deletion(&self.data.folders, &deleted);
        self.put_folders(all);
        let lines = self.data.navigation.len();
        if lines == 0 {
            self.shown.selected_navigation = 0;
        } else if same_account && self.shown.selected_navigation >= lines {
            self.shown.selected_navigation = lines - 1;
        }
        self.search = SearchState::Inactive;
        self.shown.preview_scroll = 0;
        self.shown.focus = Focus::Navigation;
        self.first_do5(
            Step::LoadNotes { persist: false, browse: false },
            Step::Say(Message::DeletedFolder),
            Step::Snapshot,
            Step::PrefixWarning(Message::DeletedFolder),
            Step::PersistSession,
        );
    }
}

} // verus!
