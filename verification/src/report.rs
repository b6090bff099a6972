//! Flat records in the AndroidQF schema, for downstream tool
//! compatibility: every field present, defaulted to an empty string or zero
//! when unavailable, never omitted.

use vstd::prelude::*;

use crate::direntry::{clone_string, spec_time_secs};
use crate::scandir_result::{ScandirResult, ScandirResultView};

verus! {

/// One file of a digest scan, flattened to the AndroidQF schema.
pub struct AndroidQFFileInfo {
    pub path: String,
    pub size: u64,
    pub mode: String,
    pub user_id: u32,
    pub user_name: String,
    pub group_id: u32,
    pub group_name: String,
    pub changed_time: i64,
    pub modified_time: i64,
    pub access_time: i64,
    pub error: String,
    pub context: String,
    pub sha1: String,
    pub sha256: String,
    pub sha512: String,
    pub md5: String,
}

/// One process of a process-list snapshot, flattened to the AndroidQF
/// schema.
pub struct AndroidQFProcessInfo {
    pub pid: u32,
    pub uid: u32,
    pub ppid: u32,
    pub pgroup: u32,
    pub psid: u32,
    pub filename: String,
    pub priority: u32,
    pub state: String,
    pub user_time: u32,
    pub kernel_time: u32,
    pub path: String,
    pub context: String,
    pub previous_context: String,
    pub command_line: Vec<String>,
    pub env: Vec<String>,
    pub cwd: String,
}

/// Flattens one scan result to the AndroidQF file record: path, size,
/// ownership, the three timestamps as whole seconds, and the SHA-256
/// digest; every other field is the schema's default.  Only the SHA-256
/// member is filled among the digest fields, as only it is computed.
pub fn to_androidqf_file_info(file: &ScandirResult) -> (r: AndroidQFFileInfo)
    ensures
        ({
            match file@ {
                ScandirResultView::DirEntry(e) => {
                    &&& r.path@ == e.path
                    &&& r.size == e.st_size
                    &&& r.user_id == e.st_uid
                    &&& r.group_id == e.st_gid
                    &&& r.changed_time == spec_time_secs(e.st_ctime)
                    &&& r.modified_time == spec_time_secs(e.st_mtime)
                    &&& r.access_time == spec_time_secs(e.st_atime)
                    &&& r.sha256@ == e.digest
                },
                ScandirResultView::Error(p, _m) => {
                    &&& r.path@ == p
                    &&& r.size == 0
                    &&& r.user_id == 0
                    &&& r.group_id == 0
                    &&& r.changed_time == 0
                    &&& r.modified_time == 0
                    &&& r.access_time == 0
                    &&& r.sha256@ == p
                },
            }
        }),
        r.mode@.len() == 0,
        r.user_name@.len() == 0,
        r.group_name@.len() == 0,
        r.error@.len() == 0,
        r.context@.len() == 0,
        r.sha1@.len() == 0,
        r.sha512@.len() == 0,
        r.md5@.len() == 0,
{
    let (changed_time, modified_time, access_time) = match file {
        ScandirResult::DirEntry(e) => (e.ctime(), e.mtime(), e.atime()),
        ScandirResult::Error(_) => (0i64, 0i64, 0i64),
    };
    AndroidQFFileInfo {
        path: clone_string(file.path()),
        size: file.size(),
        mode: String::new(),
        user_id: file.uid(),
        user_name: String::new(),
        group_id: file.gid(),
        group_name: String::new(),
        changed_time,
        modified_time,
        access_time,
        error: String::new(),
        context: String::new(),
        sha1: String::new(),
        sha256: clone_string(file.digest()),
        sha512: String::new(),
        md5: String::new(),
    }
}

impl AndroidQFProcessInfo {
    /// Builds the flat process record from the provider's plain values;
    /// the two security-context fields are always empty, as the original
    /// schema leaves them.
    pub fn new(
        pid: u32,
        uid: u32,
        ppid: u32,
        pgroup: u32,
        psid: u32,
        filename: String,
        priority: u32,
        state: String,
        user_time: u32,
        kernel_time: u32,
        path: String,
        command_line: Vec<String>,
        env: Vec<String>,
        cwd: String,
    ) -> (r: AndroidQFProcessInfo)
        ensures
            r.pid == pid,
            r.uid == uid,
            r.ppid == ppid,
            r.pgroup == pgroup,
            r.psid == psid,
            r.filename == filename,
            r.priority == priority,
            r.state == state,
            r.user_time == user_time,
            r.kernel_time == kernel_time,
            r.path == path,
            r.context@.len() == 0,
            r.previous_context@.len() == 0,
            r.command_line == command_line,
            r.env == env,
            r.cwd == cwd,
    {
        AndroidQFProcessInfo {
            pid,
            uid,
            ppid,
            pgroup,
            psid,
            filename,
            priority,
            state,
            user_time,
            kernel_time,
            path,
            context: String::new(),
            previous_context: String::new(),
            command_line,
            env,
            cwd,
        }
    }
}

} // verus!
