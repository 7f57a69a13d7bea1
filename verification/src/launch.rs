//! The way from a chosen server to the patch of the game: the public key is
//! asked for where the server's entry holds none, and then the record is
//! prepared.

use crate::api::{pubkey_of, ApiRequest, ApiResponse, MasterServerApi, Server};
use crate::error::LoaderError;
use crate::patch::{
    highest_pid, is_game_pid, is_patch_for, MemoryPatch, Patches, ProcessEntry, GAME_PROCESS_NAME,
};
use vstd::prelude::*;

verus! {

/// The next piece of work on the way to a patched game.
pub enum PatchStep {
    /// The request is to be sent to the master server; its reply holds the
    /// public key that is still missing for the patch of the process `pid`
    /// with the server `hostname`.
    FetchPublicKey { pid: u32, hostname: String, request: ApiRequest },
    /// The bytes of the patch are to be written into the game.
    WriteMemory(MemoryPatch),
}

/// Finds the running game and leads a chosen server's data into it.
pub struct Launcher {
    /// The name under which the system lists the game's process.
    pub process_name: String,
}

impl Launcher {
    /// A launcher for the game under its usual process name.
    pub fn new() -> (launcher: Launcher)
        ensures
            launcher.process_name@ == GAME_PROCESS_NAME@,
    {
        Launcher { process_name: GAME_PROCESS_NAME.to_owned() }
    }

    /// Picks the game out of the process table: of the processes that bear
    /// the game's name, letter for letter, the one with the highest pid.
    pub fn find_process(&self, processes: &[ProcessEntry]) -> (r: Result<u32, LoaderError>)
        ensures
            is_game_pid(r, processes@, self.process_name@),
    {
        highest_pid(processes, self.process_name.as_str())
    }

    /// Starts the patch of the game process `pid` for `server`. Where the
    /// server's entry holds no public key, the key is to be fetched first,
    /// with `password`; where it holds one, the patch is prepared with it.
    pub fn patch_game(pid: u32, api: &MasterServerApi, server: &Server, password: &str) -> (r:
        Result<PatchStep, LoaderError>)
        ensures
            server.pubkey@.len() == 0 ==> match r {
                Ok(step) => {
                    &&& step matches PatchStep::FetchPublicKey { pid: for_pid, hostname, request }
                    &&& for_pid == pid
                    &&& hostname == server.hostname
                    &&& api.is_pubkey_request(Ok(request), server.ip_addr@, password@)
                },
                Err(e) => api.is_pubkey_request(Err(e), server.ip_addr@, password@),
            },
            server.pubkey@.len() > 0 ==> match r {
                Ok(step) => step matches PatchStep::WriteMemory(patch) && is_patch_for(
                    Ok(patch),
                    pid,
                    server.hostname@,
                    server.pubkey@,
                ),
                Err(e) => is_patch_for(Err(e), pid, server.hostname@, server.pubkey@),
            },
    {
        if server.pubkey.as_str().is_empty() {
            match api.get_pubkey_request(server.ip_addr.as_str(), password) {
                Ok(request) => Ok(
                    PatchStep::FetchPublicKey { pid, hostname: server.hostname.clone(), request },
                ),
                Err(e) => Err(e),
            }
        } else {
            match Patches::patch(pid, server.hostname.as_str(), server.pubkey.as_str()) {
                Ok(patch) => Ok(PatchStep::WriteMemory(patch)),
                Err(e) => Err(e),
            }
        }
    }

    /// Goes on with the patch of the game process `pid` once the master
    /// server has answered the request for the public key of the server with
    /// `hostname`: the patch is prepared with the key of the reply, or the
    /// failure that the reply comes to is handed on.
    pub fn patch_game_with_key(
        pid: u32,
        api: &MasterServerApi,
        hostname: &str,
        reply: Result<ApiResponse, String>,
    ) -> (r: Result<MemoryPatch, LoaderError>)
        ensures
            match pubkey_of(reply) {
                Ok(pubkey) => is_patch_for(r, pid, hostname@, pubkey@),
                Err(e) => r == Err::<MemoryPatch, LoaderError>(e),
            },
    {
        match api.get_pubkey(reply) {
            Ok(pubkey) => Patches::patch(pid, hostname, pubkey.as_str()),
            Err(e) => Err(e),
        }
    }
}

} // verus!
