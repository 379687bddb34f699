//! Logical protocols and their names on the wire.
//!
//! Every logical protocol has one canonical name, which starts with the
//! prefix of the chain, and possibly some fallback names, which older peers
//! still announce and which carry no prefix. A naming scheme converts in
//! both directions.

use vstd::prelude::*;
use vstd::utf8::{encode_utf8, encode_utf8_decode_utf8};

verus! {

/// The logical protocols carried by the network.
#[derive(Clone, Copy, Debug, PartialEq, Eq, Hash, Structural)]
pub enum Protocol {
    /// Gossip of validator authentications.
    Authentication,
    /// Synchronisation of the block state.
    BlockSync,
}

/// What follows the chain prefix in the canonical name of the authentication
/// protocol.
pub open spec fn authentication_suffix() -> Seq<char> {
    "/auth/0"@
}

/// The name under which older peers announce the authentication protocol.
pub open spec fn legacy_authentication_name() -> Seq<char> {
    "/aleph/1"@
}

/// What follows the chain prefix in the canonical name of the block
/// synchronisation protocol.
pub open spec fn block_sync_suffix() -> Seq<char> {
    "/sync/0"@
}

/// The canonical name of `protocol` on the chain with the given prefix.
pub open spec fn canonical_name(chain_prefix: Seq<char>, protocol: Protocol) -> Seq<char> {
    match protocol {
        Protocol::Authentication => chain_prefix + authentication_suffix(),
        Protocol::BlockSync => chain_prefix + block_sync_suffix(),
    }
}

/// The fallback names of `protocol`, in the order in which they are offered.
/// They do not depend on the chain.
pub open spec fn fallback_names(protocol: Protocol) -> Seq<Seq<char>> {
    match protocol {
        Protocol::Authentication => seq![legacy_authentication_name()],
        Protocol::BlockSync => Seq::empty(),
    }
}

/// Whether `name` is the canonical name or one of the fallback names of
/// `protocol`.
pub open spec fn names_protocol(chain_prefix: Seq<char>, protocol: Protocol, name: Seq<char>) -> bool {
    name == canonical_name(chain_prefix, protocol) || fallback_names(protocol).contains(name)
}

/// The protocol that `name` stands for, if any.
pub open spec fn resolve(chain_prefix: Seq<char>, name: Seq<char>) -> Option<Protocol> {
    if names_protocol(chain_prefix, Protocol::Authentication, name) {
        Some(Protocol::Authentication)
    } else if names_protocol(chain_prefix, Protocol::BlockSync, name) {
        Some(Protocol::BlockSync)
    } else {
        None
    }
}

/// What `Debug` prints for `protocol`.
pub open spec fn protocol_label(protocol: Protocol) -> Seq<char> {
    match protocol {
        Protocol::Authentication => "Authentication"@,
        Protocol::BlockSync => "BlockSync"@,
    }
}

impl Protocol {
    /// The name of the variant, as `Debug` prints it.
    pub fn label(&self) -> (text: &'static str)
        ensures
            text@ == protocol_label(*self),
    {
        match self {
            Protocol::Authentication => "Authentication",
            Protocol::BlockSync => "BlockSync",
        }
    }
}

/// Whether two strings hold the same characters.
pub fn same_text(left: &str, right: &str) -> (same: bool)
    ensures
        same == (left@ == right@),
{
    let left_bytes = left.as_bytes();
    let right_bytes = right.as_bytes();
    proof {
        encode_utf8_decode_utf8(left@);
        encode_utf8_decode_utf8(right@);
    }
    if left_bytes.len() != right_bytes.len() {
        return false;
    }
    let mut i: usize = 0;
    while i < left_bytes.len()
        invariant
            i <= left_bytes.len(),
            left_bytes.len() == right_bytes.len(),
            left_bytes@ == encode_utf8(left@),
            right_bytes@ == encode_utf8(right@),
            forall|j: int| 0 <= j < i ==> left_bytes@[j] == right_bytes@[j],
        decreases left_bytes.len() - i,
    {
        if left_bytes[i] != right_bytes[i] {
            return false;
        }
        i += 1;
    }
    assert(left_bytes@ =~= right_bytes@);
    true
}

/// Converts protocols to their names and back.
pub struct ProtocolNaming {
    authentication_name: String,
    authentication_fallback_names: Vec<String>,
    block_sync_name: String,
}

impl ProtocolNaming {
    /// The prefix of the chain that this naming scheme was made for. It
    /// determines every name of the scheme.
    pub closed spec fn chain_prefix(&self) -> Seq<char> {
        self.authentication_name@.subrange(
            0,
            self.authentication_name@.len() - authentication_suffix().len(),
        )
    }

    #[verifier::type_invariant]
    spec fn well_formed(&self) -> bool {
        &&& self.authentication_name@ == canonical_name(
            self.chain_prefix(),
            Protocol::Authentication,
        )
        &&& self.block_sync_name@ == canonical_name(self.chain_prefix(), Protocol::BlockSync)
        &&& self.authentication_fallback_names@.len() == fallback_names(
            Protocol::Authentication,
        ).len()
        &&& forall|i: int|
            0 <= i < self.authentication_fallback_names@.len()
                ==> (#[trigger] self.authentication_fallback_names@[i])@ == fallback_names(
                Protocol::Authentication,
            )[i]
    }

    /// Creates the naming scheme of the chain with the given prefix.
    pub fn new(chain_prefix: String) -> (naming: Self)
        ensures
            naming.chain_prefix() == chain_prefix@,
    {
        let authentication_name = chain_prefix.clone().concat("/auth/0");
        let mut authentication_fallback_names: Vec<String> = Vec::new();
        authentication_fallback_names.push("/aleph/1".to_owned());
        let block_sync_name = chain_prefix.concat("/sync/0");
        proof {
            assert(authentication_name@.subrange(
                0,
                authentication_name@.len() - authentication_suffix().len(),
            ) =~= chain_prefix@);
        }
        ProtocolNaming { authentication_name, authentication_fallback_names, block_sync_name }
    }

    /// Returns the canonical name of the protocol.
    pub fn protocol_name(&self, protocol: &Protocol) -> (name: String)
        ensures
            name@ == canonical_name(self.chain_prefix(), *protocol),
            resolve(self.chain_prefix(), name@) == Some(*protocol),
    {
        proof {
            use_type_invariant(self);
            lemma_canonical_name_resolves(self.chain_prefix(), *protocol);
        }
        match protocol {
            Protocol::Authentication => self.authentication_name.clone(),
            Protocol::BlockSync => self.block_sync_name.clone(),
        }
    }

    /// Returns the fallback names of the protocol.
    pub fn fallback_protocol_names(&self, protocol: &Protocol) -> (names: Vec<String>)
        ensures
            names@.len() == fallback_names(*protocol).len(),
            forall|i: int|
                0 <= i < names@.len() ==> (#[trigger] names@[i])@ == fallback_names(*protocol)[i],
            forall|i: int|
                0 <= i < names@.len() ==> resolve(self.chain_prefix(), (#[trigger] names@[i])@)
                    == Some(*protocol),
    {
        proof {
            use_type_invariant(self);
        }
        let mut names: Vec<String> = Vec::new();
        match protocol {
            Protocol::Authentication => {
                let mut i: usize = 0;
                while i < self.authentication_fallback_names.len()
                    invariant
                        i <= self.authentication_fallback_names@.len(),
                        names@.len() == i,
                        forall|j: int|
                            0 <= j < i ==> (#[trigger] names@[j])@
                                == self.authentication_fallback_names@[j]@,
                    decreases self.authentication_fallback_names@.len() - i,
                {
                    names.push(self.authentication_fallback_names[i].clone());
                    i += 1;
                }
            },
            Protocol::BlockSync => {},
        }
        proof {
            assert forall|i: int| 0 <= i < names@.len() implies resolve(
                self.chain_prefix(),
                (#[trigger] names@[i])@,
            ) == Some(*protocol) by {
                lemma_fallback_name_resolves(self.chain_prefix(), *protocol, i);
            }
        }
        names
    }

    /// Attempts to convert the protocol name to a protocol.
    pub fn to_protocol(&self, protocol_name: &str) -> (protocol: Option<Protocol>)
        ensures
            protocol == resolve(self.chain_prefix(), protocol_name@),
    {
        proof {
            use_type_invariant(self);
        }
        if same_text(protocol_name, self.authentication_name.as_str()) {
            return Some(Protocol::Authentication);
        }
        let mut i: usize = 0;
        while i < self.authentication_fallback_names.len()
            invariant
                self.well_formed(),
                i <= self.authentication_fallback_names@.len(),
                forall|j: int|
                    0 <= j < i ==> (#[trigger] self.authentication_fallback_names@[j])@
                        != protocol_name@,
            decreases self.authentication_fallback_names@.len() - i,
        {
            if same_text(protocol_name, self.authentication_fallback_names[i].as_str()) {
                assert(fallback_names(Protocol::Authentication)[i as int] == protocol_name@);
                return Some(Protocol::Authentication);
            }
            i += 1;
        }
        assert(!fallback_names(Protocol::Authentication).contains(protocol_name@)) by {
            assert forall|k: int|
                0 <= k < fallback_names(Protocol::Authentication).len() implies fallback_names(
                Protocol::Authentication,
            )[k] != protocol_name@ by {
                assert(self.authentication_fallback_names@[k]@ != protocol_name@);
            }
        }
        if same_text(protocol_name, self.block_sync_name.as_str()) {
            return Some(Protocol::BlockSync);
        }
        None
    }
}

impl Clone for ProtocolNaming {
    fn clone(&self) -> (copy: Self)
        ensures
            copy.chain_prefix() == self.chain_prefix(),
    {
        proof {
            use_type_invariant(self);
        }
        let authentication_fallback_names = self.fallback_protocol_names(
            &Protocol::Authentication,
        );
        ProtocolNaming {
            authentication_name: self.authentication_name.clone(),
            authentication_fallback_names,
            block_sync_name: self.block_sync_name.clone(),
        }
    }
}

/// No name stands for two protocols: the names of the authentication
/// protocol and those of the block synchronisation protocol differ, whatever
/// the chain prefix.
pub proof fn lemma_names_are_unambiguous(chain_prefix: Seq<char>, name: Seq<char>)
    ensures
        !(names_protocol(chain_prefix, Protocol::Authentication, name) && names_protocol(
            chain_prefix,
            Protocol::BlockSync,
            name,
        )),
{
    reveal_strlit("/auth/0");
    reveal_strlit("/aleph/1");
    reveal_strlit("/sync/0");
    let authentication = canonical_name(chain_prefix, Protocol::Authentication);
    let block_sync = canonical_name(chain_prefix, Protocol::BlockSync);
    let second: int = chain_prefix.len() as int + 1;
    assert(authentication[second] == 'a');
    assert(block_sync[second] == 's');
    assert(block_sync.last() == '0');
    assert(legacy_authentication_name().last() == '1');
}

/// A name resolves to a protocol exactly if it is one of the names of that
/// protocol.
pub proof fn lemma_resolve_finds_the_named_protocol(
    chain_prefix: Seq<char>,
    name: Seq<char>,
    protocol: Protocol,
)
    ensures
        resolve(chain_prefix, name) == Some(protocol) <==> names_protocol(
            chain_prefix,
            protocol,
            name,
        ),
{
    lemma_names_are_unambiguous(chain_prefix, name);
}

/// The canonical name of a protocol resolves to that protocol.
pub proof fn lemma_canonical_name_resolves(chain_prefix: Seq<char>, protocol: Protocol)
    ensures
        resolve(chain_prefix, canonical_name(chain_prefix, protocol)) == Some(protocol),
{
    lemma_resolve_finds_the_named_protocol(
        chain_prefix,
        canonical_name(chain_prefix, protocol),
        protocol,
    );
}

/// Every fallback name of a protocol resolves to that protocol.
pub proof fn lemma_fallback_name_resolves(chain_prefix: Seq<char>, protocol: Protocol, i: int)
    requires
        0 <= i < fallback_names(protocol).len(),
    ensures
        resolve(chain_prefix, fallback_names(protocol)[i]) == Some(protocol),
{
    lemma_resolve_finds_the_named_protocol(chain_prefix, fallback_names(protocol)[i], protocol);
}

} // verus!
