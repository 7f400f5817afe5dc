//! The per-run session state: the single-client socket slot, the client's
//! configuration, the filter list in force, the echo maps, the inbound
//! receive table, and the pending ack waiters.
//!
//! The state is generic over the socket handle `S` and the ack-waiter
//! channel `W`; the embedding shell supplies both.

use vstd::prelude::*;

use crate::echo::EchoMap;
use crate::filter::{spec_any_match, spec_should_filter, spec_valid_patterns, FilterSet};
use crate::proto::{merge_client_config, ChunkReceiveState, ClientConfig};
use crate::strmap::StrMap;
use crate::strutil::{spec_u64_dec, u64_to_string};

verus! {

/// What admitting a socket into `slot` does: install it only when the slot
/// is empty, and report whether it was installed.
pub open spec fn spec_admit<S>(slot: Option<S>, s: S) -> (Option<S>, bool) {
    if slot is None {
        (Some(s), true)
    } else {
        (slot, false)
    }
}

/// The single-client law: once an admission has succeeded, every further
/// admission is refused and leaves the slot unchanged; of two admissions
/// to an empty slot, exactly the first is admitted.
pub proof fn law_single_client<S>(s1: S, s2: S)
    ensures
        spec_admit(spec_admit(Option::<S>::None, s1).0, s2).1 == false,
        spec_admit(spec_admit(Option::<S>::None, s1).0, s2).0 == Some(s1),
        spec_admit(Option::<S>::None, s1).1 == true,
{
}

/// The key an ack waiter is filed under: `"{fileId}-{chunkIndex}"`.
pub open spec fn spec_ack_key(file_id: Seq<char>, chunk_index: u32) -> Seq<char> {
    file_id + "-"@ + spec_u64_dec(chunk_index as int)
}

pub fn ack_key(file_id: &str, chunk_index: u32) -> (r: String)
    ensures
        r@ == spec_ack_key(file_id@, chunk_index),
{
    let mut out = file_id.to_owned();
    out.append("-");
    let idx = u64_to_string(chunk_index as u64);
    out.append(idx.as_str());
    proof {
        assert(out@ =~= spec_ack_key(file_id@, chunk_index));
    }
    out
}

/// The waiter law: installing a waiter and consuming it by its key hands
/// back the very channel that was installed, and consuming an unknown key
/// changes nothing.
pub proof fn law_ack_waiter_round_trip<W>(m: Map<Seq<char>, W>, k: Seq<char>, w: W)
    ensures
        m.insert(k, w).contains_key(k),
        m.insert(k, w)[k] == w,
        m.insert(k, w).remove(k) =~= m.remove(k),
        !m.contains_key(k) ==> m.remove(k) =~= m,
{
}

/// All session state, under one lock in the running server.
#[derive(Debug)]
pub struct SessionState<S, W> {
    /// The single client slot; the sole emission target.
    pub socket: Option<S>,
    /// The client's configuration, merged field-wise from `configure`.
    pub client_config: ClientConfig,
    /// The server's own filter rules, fixed for the run.
    pub server_filters: FilterSet,
    /// The rules in force: the server's rules followed by the client's.
    pub effective_filters: FilterSet,
    /// Paths the server itself wrote, by generation.
    pub server_written: EchoMap,
    /// Paths written on behalf of the client, by generation.
    pub client_written: EchoMap,
    /// In-flight inbound chunked files, by `fileId`.
    pub chunk_receive: StrMap<ChunkReceiveState>,
    /// Pending outbound chunk acknowledgements, by ack key.
    pub ack_waiters: StrMap<W>,
}

impl<S, W> SessionState<S, W> {
    /// Well-formed: the tables are well-formed and the effective rules
    /// begin with the server's rules.
    pub open spec fn wf(&self) -> bool {
        &&& self.server_written.wf()
        &&& self.client_written.wf()
        &&& self.chunk_receive.wf()
        &&& self.ack_waiters.wf()
        &&& self.effective_filters@.len() >= self.server_filters@.len()
        &&& self.effective_filters@.take(self.server_filters@.len() as int)
            == self.server_filters@
    }

    /// A fresh session: no client, default configuration, the server's
    /// rules in force, every table empty.
    pub fn new(server_filters: FilterSet) -> (r: SessionState<S, W>)
        ensures
            r.wf(),
            r.socket is None,
            r.client_config.enableFileSizeLimit is None,
            r.client_config.maxFileSize is None,
            r.client_config.pathRegex is None,
            r.server_filters@ == server_filters@,
            r.effective_filters@ == server_filters@,
            r.server_written@ == Map::<Seq<char>, u64>::empty(),
            r.client_written@ == Map::<Seq<char>, u64>::empty(),
            r.chunk_receive@ == Map::<Seq<char>, ChunkReceiveState>::empty(),
            r.ack_waiters@ == Map::<Seq<char>, W>::empty(),
    {
        let effective = server_filters.duplicate();
        let r = SessionState {
            socket: None,
            client_config: ClientConfig::default(),
            server_filters,
            effective_filters: effective,
            server_written: EchoMap::new(),
            client_written: EchoMap::new(),
            chunk_receive: StrMap::new(),
            ack_waiters: StrMap::new(),
        };
        proof {
            assert(r.effective_filters@.take(r.server_filters@.len() as int)
                =~= r.server_filters@);
        }
        r
    }

    /// The sole admission gate: install `s` only if the slot is empty and
    /// report whether it was installed.
    pub fn set_socket_if_empty(&mut self, s: S) -> (installed: bool)
        requires
            old(self).wf(),
        ensures
            final(self).wf(),
            (final(self).socket, installed) == spec_admit(old(self).socket, s),
            final(self).client_config == old(self).client_config,
            final(self).server_filters@ == old(self).server_filters@,
            final(self).effective_filters@ == old(self).effective_filters@,
            final(self).server_written@ == old(self).server_written@,
            final(self).client_written@ == old(self).client_written@,
            final(self).chunk_receive@ == old(self).chunk_receive@,
            final(self).ack_waiters@ == old(self).ack_waiters@,
    {
        if self.socket.is_some() {
            return false;
        }
        self.socket = Some(s);
        true
    }

    /// Empty the socket slot.
    pub fn clear_socket(&mut self)
        requires
            old(self).wf(),
        ensures
            final(self).wf(),
            final(self).socket is None,
            final(self).client_config == old(self).client_config,
            final(self).server_filters@ == old(self).server_filters@,
            final(self).effective_filters@ == old(self).effective_filters@,
            final(self).server_written@ == old(self).server_written@,
            final(self).client_written@ == old(self).client_written@,
            final(self).chunk_receive@ == old(self).chunk_receive@,
            final(self).ack_waiters@ == old(self).ack_waiters@,
    {
        self.socket = None;
    }

    /// Forget everything client-specific: receive state, waiters, both
    /// echo maps, the client configuration, and the client's filter rules.
    pub fn reset_connection_state(&mut self)
        requires
            old(self).wf(),
        ensures
            final(self).wf(),
            final(self).socket == old(self).socket,
            final(self).client_config.enableFileSizeLimit is None,
            final(self).client_config.maxFileSize is None,
            final(self).client_config.pathRegex is None,
            final(self).server_filters@ == old(self).server_filters@,
            final(self).effective_filters@ == old(self).server_filters@,
            final(self).server_written@ == Map::<Seq<char>, u64>::empty(),
            final(self).client_written@ == Map::<Seq<char>, u64>::empty(),
            final(self).chunk_receive@ == Map::<Seq<char>, ChunkReceiveState>::empty(),
            final(self).ack_waiters@ == Map::<Seq<char>, W>::empty(),
    {
        self.chunk_receive.clear();
        self.ack_waiters.clear();
        self.server_written.clear();
        self.client_written.clear();
        self.client_config = ClientConfig::default();
        self.effective_filters = self.server_filters.duplicate();
        proof {
            assert(self.effective_filters@.take(self.server_filters@.len() as int)
                =~= self.server_filters@);
        }
    }

    /// On disconnect: free the slot and forget the client.
    pub fn disconnect_cleanup(&mut self)
        requires
            old(self).wf(),
        ensures
            final(self).wf(),
            final(self).socket is None,
            final(self).client_config.enableFileSizeLimit is None,
            final(self).client_config.maxFileSize is None,
            final(self).client_config.pathRegex is None,
            final(self).server_filters@ == old(self).server_filters@,
            final(self).effective_filters@ == old(self).server_filters@,
            final(self).server_written@ == Map::<Seq<char>, u64>::empty(),
            final(self).client_written@ == Map::<Seq<char>, u64>::empty(),
            final(self).chunk_receive@ == Map::<Seq<char>, ChunkReceiveState>::empty(),
            final(self).ack_waiters@ == Map::<Seq<char>, W>::empty(),
    {
        self.clear_socket();
        self.reset_connection_state();
    }

    /// A `configure` event: merge the incoming fields into the stored
    /// client configuration, then rebuild the rules in force from the
    /// server's rules and the merged client rules.
    pub fn apply_client_config(&mut self, incoming: ClientConfig)
        requires
            old(self).wf(),
        ensures
            final(self).wf(),
            final(self).socket == old(self).socket,
            final(self).server_filters@ == old(self).server_filters@,
            final(self).client_config.enableFileSizeLimit == (
            if incoming.enableFileSizeLimit is Some {
                incoming.enableFileSizeLimit
            } else {
                old(self).client_config.enableFileSizeLimit
            }),
            final(self).client_config.maxFileSize == (if incoming.maxFileSize is Some {
                incoming.maxFileSize
            } else {
                old(self).client_config.maxFileSize
            }),
            final(self).client_config.pathRegex == (if incoming.pathRegex is Some {
                incoming.pathRegex
            } else {
                old(self).client_config.pathRegex
            }),
            final(self).effective_filters@ == old(self).server_filters@ + (
            match final(self).client_config.pathRegex {
                Some(pats) => spec_valid_patterns(pats@.map_values(|p: String| p@)),
                None => Seq::<Seq<char>>::empty(),
            }),
            final(self).server_written@ == old(self).server_written@,
            final(self).client_written@ == old(self).client_written@,
            final(self).chunk_receive@ == old(self).chunk_receive@,
            final(self).ack_waiters@ == old(self).ack_waiters@,
    {
        merge_client_config(&mut self.client_config, incoming);
        let empty_extra: Vec<String> = Vec::new();
        let merged = match &self.client_config.pathRegex {
            Some(pats) => self.server_filters.with_extra_patterns(pats),
            None => {
                let r = self.server_filters.with_extra_patterns(&empty_extra);
                proof {
                    assert(spec_valid_patterns(empty_extra@.map_values(|p: String| p@))
                        =~= Seq::<Seq<char>>::empty());
                    assert(self.server_filters@ + Seq::<Seq<char>>::empty()
                        =~= self.server_filters@);
                }
                r
            },
        };
        self.effective_filters = merged;
        proof {
            assert(self.effective_filters@.take(self.server_filters@.len() as int)
                =~= self.server_filters@);
            if self.client_config.pathRegex is None {
                assert(self.effective_filters@ =~= self.server_filters@ + Seq::<
                    Seq<char>,
                >::empty());
            }
        }
    }

    /// Whether `rel` matches the rules in force.
    pub fn should_filter_rel(&self, rel: &str) -> (r: bool)
        ensures
            r == spec_should_filter(self.effective_filters@, rel@),
    {
        crate::filter::should_filter_path(rel, &self.effective_filters)
    }

    /// File a waiter for one outbound chunk under its key.
    pub fn insert_ack_waiter(&mut self, key: String, tx: W)
        requires
            old(self).wf(),
        ensures
            final(self).wf(),
            final(self).ack_waiters@ == old(self).ack_waiters@.insert(key@, tx),
            final(self).socket == old(self).socket,
            final(self).chunk_receive@ == old(self).chunk_receive@,
    {
        self.ack_waiters.insert(key, tx);
    }

    /// Take the waiter filed under `key`, if one is pending.
    pub fn remove_ack_waiter(&mut self, key: &str) -> (r: Option<W>)
        requires
            old(self).wf(),
        ensures
            final(self).wf(),
            final(self).ack_waiters@ == old(self).ack_waiters@.remove(key@),
            r is Some <==> old(self).ack_waiters@.contains_key(key@),
            r is Some ==> r->0 == old(self).ack_waiters@[key@],
            final(self).socket == old(self).socket,
            final(self).chunk_receive@ == old(self).chunk_receive@,
    {
        self.ack_waiters.remove(key)
    }
}

} // verus!
