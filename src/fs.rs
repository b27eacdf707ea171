//! Filesystem operations: their parameters, their payloads and their requests.
use vstd::prelude::*;
use crate::json::{
    array_text, json_string_of, keys_of, member, members_view, object_text, opt_bool_member,
    opt_count_member, opt_small_member, opt_string_member, push_member, push_opt_bool,
    push_opt_count, push_opt_small, push_opt_string, string_array_value, strings_view, write_array,
    write_object, write_string, write_string_array, MemberView,
};
use crate::request::{
    file_request, is_file_request, is_json_request, json_request, Endpoint, HttpRequest,
};

verus! {

/// An entry of a directory listing.
#[derive(Debug)]
pub struct DirFileInfo {
    pub name: String,
    pub size: u128,
    pub is_dir: bool,
    pub modified: String,
    pub sign: String,
    pub thumb: String,
    /// The server's `type` field: the kind of file, as a number.
    pub file_type: isize,
}

/// A page of a directory listing.
#[derive(Debug)]
pub struct ListdirData {
    pub content: Vec<DirFileInfo>,
    /// The number of entries in the directory.
    pub total: usize,
    /// The directory's readme text.
    pub readme: String,
    /// Whether the directory can be written to.
    pub write: bool,
    pub provider: String,
}

/// Which directory, or which page of it, to look at.
#[derive(Debug, Default)]
pub struct FileParams {
    pub path: Option<String>,
    /// The password of a protected directory.
    pub password: Option<String>,
    pub page: Option<usize>,
    pub per_page: Option<usize>,
    /// Whether the server should refresh its cache of the directory.
    pub refresh: Option<bool>,
}

impl FileParams {
    /// The members of the body, unset fields left out.
    pub open spec fn spec_members(&self) -> Seq<MemberView> {
        opt_string_member("path", self.path) + opt_string_member("password", self.password)
            + opt_count_member("page", self.page) + opt_count_member("per_page", self.per_page)
            + opt_bool_member("refresh", self.refresh)
    }

    /// The JSON body.
    pub fn to_json(&self) -> (r: String)
        ensures
            r@ == object_text(self.spec_members()),
    {
        let mut m: Vec<(String, String)> = Vec::new();
        assert(members_view(m@) =~= Seq::empty());
        push_opt_string(&mut m, "path", &self.path);
        push_opt_string(&mut m, "password", &self.password);
        push_opt_count(&mut m, "page", self.page);
        push_opt_count(&mut m, "per_page", self.per_page);
        push_opt_bool(&mut m, "refresh", self.refresh);
        assert(members_view(m@) =~= self.spec_members());
        write_object(&m)
    }
}

/// Metadata of one file or directory.
#[derive(Debug)]
pub struct FileInfo {
    pub name: String,
    pub size: u128,
    pub is_dir: bool,
    pub modified: String,
    pub sign: String,
    pub thumb: String,
    /// The server's `type` field: the kind of file, as a number.
    pub file_type: isize,
    pub row_url: String,
    pub readme: String,
    pub provider: String,
    pub related: Option<String>,
}

/// A search below a directory.
#[derive(Debug, Default)]
pub struct SearchParams {
    /// The directory to search below.
    pub parent: String,
    pub keywords: String,
    /// 0 for everything, 1 for directories only, 2 for files only.
    pub scope: Option<u8>,
    pub page: Option<usize>,
    pub per_page: Option<usize>,
    pub password: Option<String>,
}

impl SearchParams {
    /// The members of the body, unset fields left out.
    pub open spec fn spec_members(&self) -> Seq<MemberView> {
        member("parent", json_string_of(self.parent@)) + member("keywords", json_string_of(self.keywords@))
            + opt_small_member("scope", self.scope) + opt_count_member("page", self.page)
            + opt_count_member("per_page", self.per_page) + opt_string_member("password", self.password)
    }

    /// The JSON body.
    pub fn to_json(&self) -> (r: String)
        ensures
            r@ == object_text(self.spec_members()),
    {
        let mut m: Vec<(String, String)> = Vec::new();
        assert(members_view(m@) =~= Seq::empty());
        push_member(&mut m, "parent", write_string(self.parent.as_str()));
        push_member(&mut m, "keywords", write_string(self.keywords.as_str()));
        push_opt_small(&mut m, "scope", self.scope);
        push_opt_count(&mut m, "page", self.page);
        push_opt_count(&mut m, "per_page", self.per_page);
        push_opt_string(&mut m, "password", &self.password);
        assert(members_view(m@) =~= self.spec_members());
        write_object(&m)
    }
}

/// A search hit.
#[derive(Debug)]
pub struct SearchFileInfo {
    pub name: String,
    pub parent: String,
    pub size: u128,
    pub is_dir: bool,
    /// The server's `type` field: the kind of file, as a number.
    pub file_type: isize,
}

/// A page of search hits.
#[derive(Debug)]
pub struct SearchFileData {
    pub content: Vec<SearchFileInfo>,
    pub total: usize,
}

/// Which directories to list below a parent.
#[derive(Debug, Default)]
pub struct GetDirParams {
    pub parent: String,
    pub page: Option<usize>,
    pub per_page: Option<usize>,
    pub password: Option<String>,
    pub force_root: Option<String>,
}

impl GetDirParams {
    /// The members of the body, unset fields left out.
    pub open spec fn spec_members(&self) -> Seq<MemberView> {
        member("parent", json_string_of(self.parent@)) + opt_count_member("page", self.page)
            + opt_count_member("per_page", self.per_page) + opt_string_member("password", self.password)
            + opt_string_member("force_root", self.force_root)
    }

    /// The JSON body.
    pub fn to_json(&self) -> (r: String)
        ensures
            r@ == object_text(self.spec_members()),
    {
        let mut m: Vec<(String, String)> = Vec::new();
        assert(members_view(m@) =~= Seq::empty());
        push_member(&mut m, "parent", write_string(self.parent.as_str()));
        push_opt_count(&mut m, "page", self.page);
        push_opt_count(&mut m, "per_page", self.per_page);
        push_opt_string(&mut m, "password", &self.password);
        push_opt_string(&mut m, "force_root", &self.force_root);
        assert(members_view(m@) =~= self.spec_members());
        write_object(&m)
    }
}

/// A directory below the parent.
#[derive(Debug)]
pub struct SearchDirInfo {
    pub name: String,
    pub modified: String,
}

/// The directories below a parent.
#[derive(Debug)]
pub struct SearchDirData {
    pub content: Vec<SearchDirInfo>,
}

/// One rename inside a directory.
#[derive(Debug)]
pub struct RenameParams {
    pub src_name: String,
    pub new_name: String,
}

impl RenameParams {
    /// The members of the body.
    pub open spec fn spec_members(&self) -> Seq<MemberView> {
        member("src_name", json_string_of(self.src_name@))
            + member("new_name", json_string_of(self.new_name@))
    }

    /// The JSON body.
    pub fn to_json(&self) -> (r: String)
        ensures
            r@ == object_text(self.spec_members()),
    {
        let mut m: Vec<(String, String)> = Vec::new();
        assert(members_view(m@) =~= Seq::empty());
        push_member(&mut m, "src_name", write_string(self.src_name.as_str()));
        push_member(&mut m, "new_name", write_string(self.new_name.as_str()));
        assert(members_view(m@) =~= self.spec_members());
        write_object(&m)
    }
}

/// One pattern rename inside a directory.
#[derive(Debug)]
pub struct RegexRenameParams {
    pub src_name_regex: String,
    pub new_name_regex: String,
}

impl RegexRenameParams {
    /// The members of the body.
    pub open spec fn spec_members(&self) -> Seq<MemberView> {
        member("src_name_regex", json_string_of(self.src_name_regex@))
            + member("new_name_regex", json_string_of(self.new_name_regex@))
    }

    /// The JSON body.
    pub fn to_json(&self) -> (r: String)
        ensures
            r@ == object_text(self.spec_members()),
    {
        let mut m: Vec<(String, String)> = Vec::new();
        assert(members_view(m@) =~= Seq::empty());
        push_member(&mut m, "src_name_regex", write_string(self.src_name_regex.as_str()));
        push_member(&mut m, "new_name_regex", write_string(self.new_name_regex.as_str()));
        assert(members_view(m@) =~= self.spec_members());
        write_object(&m)
    }
}

/// Entries to move from one directory to another.
#[derive(Debug)]
pub struct MoveParams {
    pub src_dir: String,
    pub dst_dir: String,
    pub names: Vec<String>,
}

impl MoveParams {
    /// The members of the body.
    pub open spec fn spec_members(&self) -> Seq<MemberView> {
        member("src_dir", json_string_of(self.src_dir@))
            + member("dst_dir", json_string_of(self.dst_dir@))
            + member("names", string_array_value(self.names@))
    }

    /// The JSON body.
    pub fn to_json(&self) -> (r: String)
        ensures
            r@ == object_text(self.spec_members()),
    {
        let mut m: Vec<(String, String)> = Vec::new();
        assert(members_view(m@) =~= Seq::empty());
        push_member(&mut m, "src_dir", write_string(self.src_dir.as_str()));
        push_member(&mut m, "dst_dir", write_string(self.dst_dir.as_str()));
        push_member(&mut m, "names", write_string_array(&self.names));
        assert(members_view(m@) =~= self.spec_members());
        write_object(&m)
    }
}

/// Everything below a directory, moved into another.
#[derive(Debug)]
pub struct RecursiveMoveParams {
    pub src_dir: String,
    pub dst_dir: String,
}

impl RecursiveMoveParams {
    /// The members of the body.
    pub open spec fn spec_members(&self) -> Seq<MemberView> {
        member("src_dir", json_string_of(self.src_dir@))
            + member("dst_dir", json_string_of(self.dst_dir@))
    }

    /// The JSON body.
    pub fn to_json(&self) -> (r: String)
        ensures
            r@ == object_text(self.spec_members()),
    {
        let mut m: Vec<(String, String)> = Vec::new();
        assert(members_view(m@) =~= Seq::empty());
        push_member(&mut m, "src_dir", write_string(self.src_dir.as_str()));
        push_member(&mut m, "dst_dir", write_string(self.dst_dir.as_str()));
        assert(members_view(m@) =~= self.spec_members());
        write_object(&m)
    }
}

/// Entries to copy from one directory to another.
#[derive(Debug)]
pub struct CopyParams {
    pub src_dir: String,
    pub dst_dir: String,
    pub names: Vec<String>,
}

impl CopyParams {
    /// The members of the body.
    pub open spec fn spec_members(&self) -> Seq<MemberView> {
        member("src_dir", json_string_of(self.src_dir@))
            + member("dst_dir", json_string_of(self.dst_dir@))
            + member("names", string_array_value(self.names@))
    }

    /// The JSON body.
    pub fn to_json(&self) -> (r: String)
        ensures
            r@ == object_text(self.spec_members()),
    {
        let mut m: Vec<(String, String)> = Vec::new();
        assert(members_view(m@) =~= Seq::empty());
        push_member(&mut m, "src_dir", write_string(self.src_dir.as_str()));
        push_member(&mut m, "dst_dir", write_string(self.dst_dir.as_str()));
        push_member(&mut m, "names", write_string_array(&self.names));
        assert(members_view(m@) =~= self.spec_members());
        write_object(&m)
    }
}

/// Entries to remove from a directory.
#[derive(Debug)]
pub struct DeleteParams {
    pub dir: String,
    pub names: Vec<String>,
}

impl DeleteParams {
    /// The members of the body.
    pub open spec fn spec_members(&self) -> Seq<MemberView> {
        member("dir", json_string_of(self.dir@))
            + member("names", string_array_value(self.names@))
    }

    /// The JSON body.
    pub fn to_json(&self) -> (r: String)
        ensures
            r@ == object_text(self.spec_members()),
    {
        let mut m: Vec<(String, String)> = Vec::new();
        assert(members_view(m@) =~= Seq::empty());
        push_member(&mut m, "dir", write_string(self.dir.as_str()));
        push_member(&mut m, "names", write_string_array(&self.names));
        assert(members_view(m@) =~= self.spec_members());
        write_object(&m)
    }
}

/// Downloads for the server to fetch into a directory.
#[derive(Debug)]
pub struct OfflineTaskParams {
    pub path: String,
    pub urls: Vec<String>,
}

impl OfflineTaskParams {
    /// The members of the body.
    pub open spec fn spec_members(&self) -> Seq<MemberView> {
        member("path", json_string_of(self.path@))
            + member("urls", string_array_value(self.urls@))
    }

    /// The JSON body.
    pub fn to_json(&self) -> (r: String)
        ensures
            r@ == object_text(self.spec_members()),
    {
        let mut m: Vec<(String, String)> = Vec::new();
        assert(members_view(m@) =~= Seq::empty());
        push_member(&mut m, "path", write_string(self.path.as_str()));
        push_member(&mut m, "urls", write_string_array(&self.urls));
        assert(members_view(m@) =~= self.spec_members());
        write_object(&m)
    }
}

/// Renames of several entries of one directory.
#[derive(Debug)]
pub struct BatchRenameParams {
    pub src_dir: String,
    pub rename_objects: Vec<RenameParams>,
}

impl BatchRenameParams {
    /// The members of the body: the directory, and one object per rename.
    pub open spec fn spec_members(&self) -> Seq<MemberView> {
        member("src_dir", json_string_of(self.src_dir@)) + member(
            "rename_objects",
            array_text(self.rename_objects@.map_values(|o: RenameParams| object_text(o.spec_members()))),
        )
    }

    /// The JSON body.
    pub fn to_json(&self) -> (r: String)
        ensures
            r@ == object_text(self.spec_members()),
    {
        let mut texts: Vec<String> = Vec::new();
        let mut i: usize = 0;
        while i < self.rename_objects.len()
            invariant
                i <= self.rename_objects@.len(),
                strings_view(texts@) =~= self.rename_objects@.subrange(0, i as int).map_values(
                    |o: RenameParams| object_text(o.spec_members()),
                ),
            decreases self.rename_objects@.len() - i,
        {
            let t = self.rename_objects[i].to_json();
            let ghost prev = texts@;
            texts.push(t);
            proof {
                let done = self.rename_objects@.subrange(0, i + 1);
                assert(done =~= self.rename_objects@.subrange(0, i as int).push(self.rename_objects@[i as int]));
                assert(strings_view(texts@) =~= strings_view(prev).push(t@));
            }
            i = i + 1;
        }
        assert(self.rename_objects@.subrange(0, self.rename_objects@.len() as int) =~= self.rename_objects@);
        let mut m: Vec<(String, String)> = Vec::new();
        assert(members_view(m@) =~= Seq::empty());
        push_member(&mut m, "src_dir", write_string(self.src_dir.as_str()));
        push_member(&mut m, "rename_objects", write_array(&texts));
        assert(members_view(m@) =~= self.spec_members());
        write_object(&m)
    }
}

/// Pattern renames of the entries of one directory.
#[derive(Debug)]
pub struct BatchRegexRenameParams {
    pub src_dir: String,
    pub rename_objects: Vec<RegexRenameParams>,
}

impl BatchRegexRenameParams {
    /// The members of the body: the directory, and one object per rename.
    pub open spec fn spec_members(&self) -> Seq<MemberView> {
        member("src_dir", json_string_of(self.src_dir@)) + member(
            "rename_objects",
            array_text(self.rename_objects@.map_values(|o: RegexRenameParams| object_text(o.spec_members()))),
        )
    }

    /// The JSON body.
    pub fn to_json(&self) -> (r: String)
        ensures
            r@ == object_text(self.spec_members()),
    {
        let mut texts: Vec<String> = Vec::new();
        let mut i: usize = 0;
        while i < self.rename_objects.len()
            invariant
                i <= self.rename_objects@.len(),
                strings_view(texts@) =~= self.rename_objects@.subrange(0, i as int).map_values(
                    |o: RegexRenameParams| object_text(o.spec_members()),
                ),
            decreases self.rename_objects@.len() - i,
        {
            let t = self.rename_objects[i].to_json();
            let ghost prev = texts@;
            texts.push(t);
            proof {
                let done = self.rename_objects@.subrange(0, i + 1);
                assert(done =~= self.rename_objects@.subrange(0, i as int).push(self.rename_objects@[i as int]));
                assert(strings_view(texts@) =~= strings_view(prev).push(t@));
            }
            i = i + 1;
        }
        assert(self.rename_objects@.subrange(0, self.rename_objects@.len() as int) =~= self.rename_objects@);
        let mut m: Vec<(String, String)> = Vec::new();
        assert(members_view(m@) =~= Seq::empty());
        push_member(&mut m, "src_dir", write_string(self.src_dir.as_str()));
        push_member(&mut m, "rename_objects", write_array(&texts));
        assert(members_view(m@) =~= self.spec_members());
        write_object(&m)
    }
}

/// The request that creates the directory `path`.
pub fn mkdir_request(server: &str, token: &str, path: &str) -> (r: HttpRequest)
    ensures
        is_json_request(r, server@, token@, Endpoint::Mkdir, object_text(seq![("path"@, json_string_of(path@))])),
{
    let mut m: Vec<(String, String)> = Vec::new();
    push_member(&mut m, "path", write_string(path));
    assert(members_view(m@) =~= seq![("path"@, json_string_of(path@))]);
    json_request(server, token, Endpoint::Mkdir, write_object(&m))
}

/// The request that gives the entry at `path` the new name `name`.
pub fn rename_request(server: &str, token: &str, path: &str, name: &str) -> (r: HttpRequest)
    ensures
        is_json_request(
            r,
            server@,
            token@,
            Endpoint::Rename,
            object_text(seq![("path"@, json_string_of(path@)), ("name"@, json_string_of(name@))]),
        ),
{
    let mut m: Vec<(String, String)> = Vec::new();
    push_member(&mut m, "path", write_string(path));
    push_member(&mut m, "name", write_string(name));
    assert(members_view(m@) =~= seq![("path"@, json_string_of(path@)), ("name"@, json_string_of(name@))]);
    json_request(server, token, Endpoint::Rename, write_object(&m))
}

/// The request that uploads the local file `file` of `size` bytes by the form endpoint.
pub fn form_upload_request(server: &str, token: &str, file: &str, size: u64) -> (r: HttpRequest)
    ensures
        is_file_request(r, server@, token@, Endpoint::FormUpload, file@, size),
{
    file_request(server, token, Endpoint::FormUpload, file, size)
}

/// The request that uploads the local file `file` of `size` bytes by the streaming endpoint.
pub fn put_upload_request(server: &str, token: &str, file: &str, size: u64) -> (r: HttpRequest)
    ensures
        is_file_request(r, server@, token@, Endpoint::StreamUpload, file@, size),
{
    file_request(server, token, Endpoint::StreamUpload, file, size)
}

/// The request that lists a directory.
pub fn listdir_request(server: &str, token: &str, params: &FileParams) -> (r: HttpRequest)
    ensures
        is_json_request(r, server@, token@, Endpoint::List, object_text(params.spec_members())),
{
    json_request(server, token, Endpoint::List, params.to_json())
}

/// The request for the metadata of one entry.
pub fn fileinfo_request(server: &str, token: &str, params: &FileParams) -> (r: HttpRequest)
    ensures
        is_json_request(r, server@, token@, Endpoint::Get, object_text(params.spec_members())),
{
    json_request(server, token, Endpoint::Get, params.to_json())
}

/// The request that searches below a directory.
pub fn search_request(server: &str, token: &str, params: &SearchParams) -> (r: HttpRequest)
    ensures
        is_json_request(r, server@, token@, Endpoint::Search, object_text(params.spec_members())),
{
    json_request(server, token, Endpoint::Search, params.to_json())
}

/// The request that lists the directories below a parent.
pub fn get_dirs_request(server: &str, token: &str, params: &GetDirParams) -> (r: HttpRequest)
    ensures
        is_json_request(r, server@, token@, Endpoint::Dirs, object_text(params.spec_members())),
{
    json_request(server, token, Endpoint::Dirs, params.to_json())
}

/// The request that renames several entries of one directory.
pub fn batch_rename_request(server: &str, token: &str, params: &BatchRenameParams) -> (r: HttpRequest)
    ensures
        is_json_request(r, server@, token@, Endpoint::BatchRename, object_text(params.spec_members())),
{
    json_request(server, token, Endpoint::BatchRename, params.to_json())
}

/// The request that renames the entries of one directory by patterns.
pub fn regex_rename_request(server: &str, token: &str, params: &BatchRegexRenameParams) -> (r: HttpRequest)
    ensures
        is_json_request(r, server@, token@, Endpoint::RegexRename, object_text(params.spec_members())),
{
    json_request(server, token, Endpoint::RegexRename, params.to_json())
}

/// The request that moves entries between directories.
pub fn move_file_request(server: &str, token: &str, params: &MoveParams) -> (r: HttpRequest)
    ensures
        is_json_request(r, server@, token@, Endpoint::Move, object_text(params.spec_members())),
{
    json_request(server, token, Endpoint::Move, params.to_json())
}

/// The request that moves everything below a directory into another.
pub fn recursive_move_request(server: &str, token: &str, params: &RecursiveMoveParams) -> (r: HttpRequest)
    ensures
        is_json_request(r, server@, token@, Endpoint::RecursiveMove, object_text(params.spec_members())),
{
    json_request(server, token, Endpoint::RecursiveMove, params.to_json())
}

/// The request that copies entries between directories.
pub fn copy_file_request(server: &str, token: &str, params: &CopyParams) -> (r: HttpRequest)
    ensures
        is_json_request(r, server@, token@, Endpoint::Copy, object_text(params.spec_members())),
{
    json_request(server, token, Endpoint::Copy, params.to_json())
}

/// The request that removes entries of a directory.
pub fn remove_directory_request(server: &str, token: &str, params: &DeleteParams) -> (r: HttpRequest)
    ensures
        is_json_request(r, server@, token@, Endpoint::Remove, object_text(params.spec_members())),
{
    json_request(server, token, Endpoint::Remove, params.to_json())
}

/// The request that removes the empty directories below `src_dir`.
pub fn remove_empty_directory_request(server: &str, token: &str, src_dir: &str) -> (r: HttpRequest)
    ensures
        is_json_request(
            r,
            server@,
            token@,
            Endpoint::RemoveEmptyDirectory,
            object_text(seq![("src_dir"@, json_string_of(src_dir@))]),
        ),
{
    let mut m: Vec<(String, String)> = Vec::new();
    push_member(&mut m, "src_dir", write_string(src_dir));
    assert(members_view(m@) =~= seq![("src_dir"@, json_string_of(src_dir@))]);
    json_request(server, token, Endpoint::RemoveEmptyDirectory, write_object(&m))
}

/// The request that hands downloads to the aria2 downloader.
pub fn add_aria2_task_request(server: &str, token: &str, params: &OfflineTaskParams) -> (r: HttpRequest)
    ensures
        is_json_request(r, server@, token@, Endpoint::AddAria2, object_text(params.spec_members())),
{
    json_request(server, token, Endpoint::AddAria2, params.to_json())
}

/// The request that hands downloads to the qBittorrent downloader.
pub fn add_qbit_task_request(server: &str, token: &str, params: &OfflineTaskParams) -> (r: HttpRequest)
    ensures
        is_json_request(r, server@, token@, Endpoint::AddQbit, object_text(params.spec_members())),
{
    json_request(server, token, Endpoint::AddQbit, params.to_json())
}

/// A listing request with every optional field unset has an empty body object.
pub proof fn lemma_file_params_unset_omitted(p: FileParams)
    requires
        p.path is None,
        p.password is None,
        p.page is None,
        p.per_page is None,
        p.refresh is None,
    ensures
        keys_of(p.spec_members()) == Seq::<Seq<char>>::empty(),
{
    assert(keys_of(p.spec_members()) =~= Seq::<Seq<char>>::empty());
}

/// A search with every optional field unset holds only the parent and the keywords.
pub proof fn lemma_search_params_unset_omitted(p: SearchParams)
    requires
        p.scope is None,
        p.page is None,
        p.per_page is None,
        p.password is None,
    ensures
        keys_of(p.spec_members()) == seq!["parent"@, "keywords"@],
{
    assert(keys_of(p.spec_members()) =~= seq!["parent"@, "keywords"@]);
}

/// A directory query with every optional field unset holds only the parent.
pub proof fn lemma_get_dir_params_unset_omitted(p: GetDirParams)
    requires
        p.page is None,
        p.per_page is None,
        p.password is None,
        p.force_root is None,
    ensures
        keys_of(p.spec_members()) == seq!["parent"@],
{
    assert(keys_of(p.spec_members()) =~= seq!["parent"@]);
}

} // verus!
