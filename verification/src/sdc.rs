//! Encoding of a display-configuration apply request into the flag bitmask
//! and path/mode buffers the OS apply call expects.
//!
//! The encoding is a pure function of the request; it is stated bit by bit
//! as spec functions and the executable encoder is proved to agree with
//! them exactly. The one cross-field constraint — forcing mode enumeration
//! is only meaningful when the request actually applies — is rejected up
//! front, before any buffer or flag word is produced.

use vstd::prelude::*;

use crate::error::Error;

verus! {

// Flag values of the OS apply call, as the OS defines them. One action bit
// (apply or validate, never both), one group of source bits, and two
// modifier groups that are ORed in independently.
pub const SDC_TOPOLOGY_INTERNAL: u32 = 0x00000001;
pub const SDC_TOPOLOGY_CLONE: u32 = 0x00000002;
pub const SDC_TOPOLOGY_EXTEND: u32 = 0x00000004;
pub const SDC_TOPOLOGY_EXTERNAL: u32 = 0x00000008;
pub const SDC_TOPOLOGY_SUPPLIED: u32 = 0x00000010;
pub const SDC_USE_SUPPLIED_DISPLAY_CONFIG: u32 = 0x00000020;
pub const SDC_VALIDATE: u32 = 0x00000040;
pub const SDC_APPLY: u32 = 0x00000080;
pub const SDC_NO_OPTIMIZATION: u32 = 0x00000100;
pub const SDC_SAVE_TO_DATABASE: u32 = 0x00000200;
pub const SDC_ALLOW_CHANGES: u32 = 0x00000400;
pub const SDC_PATH_PERSIST_IF_REQUIRED: u32 = 0x00000800;
pub const SDC_FORCE_MODE_ENUMERATION: u32 = 0x00001000;
pub const SDC_ALLOW_PATH_ORDER_CHANGES: u32 = 0x00002000;

/// An OS display-path record (one per monitor output). The subsystem never
/// interprets such a record: it only counts, copies and forwards them, so a
/// record is carried as an opaque token.
#[derive(Clone, Copy, Debug, PartialEq, Eq, Structural)]
pub struct DisplayPath {
    pub raw: u64,
}

/// An OS video-mode record (one per mode), carried opaquely like
/// [`DisplayPath`].
#[derive(Clone, Copy, Debug, PartialEq, Eq, Structural)]
pub struct DisplayMode {
    pub raw: u64,
}

/// What the apply call is asked to do: actually change the configuration,
/// or only validate that the request could be applied. `Validate` never
/// mutates system state.
#[derive(Clone, Copy, Debug, PartialEq, Eq, Structural)]
pub enum SdcAction {
    Apply { no_optimization: bool },
    Validate,
}

/// A set of topology classes the OS may pick a database-stored
/// configuration from. With no flag set, an apply from the database is a
/// no-op by OS contract.
#[derive(Clone, Copy, Debug, PartialEq, Eq, Structural)]
pub struct SdcDatabaseTopologies {
    pub internal: bool,
    pub clone: bool,
    pub extend: bool,
    pub external: bool,
}

/// Where the configuration to apply comes from: exact caller-supplied
/// path/mode arrays, a caller-supplied topology with OS-chosen modes, or a
/// configuration the OS database stores for a matching topology class.
#[derive(Clone, Debug)]
pub enum SdcConfig {
    SuppliedConfig {
        force_mode_enumeration: bool,
        save_to_database: bool,
        paths: Vec<DisplayPath>,
        modes: Vec<DisplayMode>,
    },
    SuppliedTopology {
        allow_path_order_changes: bool,
        paths: Vec<DisplayPath>,
    },
    Database {
        topologies: SdcDatabaseTopologies,
        path_persist_if_required: bool,
    },
}

/// The complete description of one apply operation: the action, the
/// configuration source, and whether the OS may deviate from the request.
/// Constructed fresh per call and never persisted.
#[derive(Clone, Debug)]
pub struct Sdc {
    pub action: SdcAction,
    pub config: SdcConfig,
    pub allow_changes: bool,
}

/// The given flag when the condition holds, and no bits otherwise.
pub open spec fn spec_bit(condition: bool, flag: u32) -> u32 {
    if condition {
        flag
    } else {
        0
    }
}

/// The action bits of the encoding table: exactly one of the apply and
/// validate bits, plus the no-optimization modifier when applying.
pub open spec fn spec_action_flags(action: SdcAction) -> u32 {
    match action {
        SdcAction::Apply { no_optimization } => SDC_APPLY | spec_bit(
            no_optimization,
            SDC_NO_OPTIMIZATION,
        ),
        SdcAction::Validate => SDC_VALIDATE,
    }
}

/// The source bits of the encoding table: one base bit per source kind,
/// plus one bit per boolean sub-flag, and for the database source one bit
/// per topology class present in the selector.
pub open spec fn spec_source_flags(config: SdcConfig) -> u32 {
    match config {
        SdcConfig::SuppliedConfig { force_mode_enumeration, save_to_database, .. } =>
            SDC_USE_SUPPLIED_DISPLAY_CONFIG | spec_bit(
            force_mode_enumeration,
            SDC_FORCE_MODE_ENUMERATION,
        ) | spec_bit(save_to_database, SDC_SAVE_TO_DATABASE),
        SdcConfig::SuppliedTopology { allow_path_order_changes, .. } => SDC_TOPOLOGY_SUPPLIED
            | spec_bit(allow_path_order_changes, SDC_ALLOW_PATH_ORDER_CHANGES),
        SdcConfig::Database { topologies, path_persist_if_required } => spec_bit(
            topologies.internal,
            SDC_TOPOLOGY_INTERNAL,
        ) | spec_bit(topologies.clone, SDC_TOPOLOGY_CLONE) | spec_bit(
            topologies.extend,
            SDC_TOPOLOGY_EXTEND,
        ) | spec_bit(topologies.external, SDC_TOPOLOGY_EXTERNAL) | spec_bit(
            path_persist_if_required,
            SDC_PATH_PERSIST_IF_REQUIRED,
        ),
    }
}

impl Sdc {
    /// The full flag word of the encoding table.
    pub open spec fn spec_flags(self) -> u32 {
        spec_action_flags(self.action) | spec_source_flags(self.config) | spec_bit(
            self.allow_changes,
            SDC_ALLOW_CHANGES,
        )
    }

    /// Cross-field constraint: forcing mode enumeration is only meaningful
    /// when the action actually applies the configuration. A request that
    /// asks for it while only validating is a logic error and is rejected
    /// before encoding, never silently dropped.
    pub open spec fn valid(self) -> bool {
        self.config matches SdcConfig::SuppliedConfig { force_mode_enumeration, .. }
            && force_mode_enumeration ==> self.action is Apply
    }

    /// The path records handed to the OS call: the supplied array for the
    /// supplied-config and supplied-topology sources, and none for the
    /// database source (the OS consults its own stored records).
    pub open spec fn spec_paths(self) -> Seq<DisplayPath> {
        match self.config {
            SdcConfig::SuppliedConfig { paths, .. } => paths@,
            SdcConfig::SuppliedTopology { paths, .. } => paths@,
            SdcConfig::Database { .. } => Seq::empty(),
        }
    }

    /// The mode records handed to the OS call: supplied only by the
    /// supplied-config source.
    pub open spec fn spec_modes(self) -> Seq<DisplayMode> {
        match self.config {
            SdcConfig::SuppliedConfig { modes, .. } => modes@,
            SdcConfig::SuppliedTopology { .. } => Seq::empty(),
            SdcConfig::Database { .. } => Seq::empty(),
        }
    }

    /// Whether the request passes the cross-field constraint.
    pub fn is_valid(&self) -> (r: bool)
        ensures
            r == self.valid(),
    {
        match (&self.config, &self.action) {
            (
                SdcConfig::SuppliedConfig { force_mode_enumeration, .. },
                SdcAction::Validate,
            ) => !*force_mode_enumeration,
            _ => true,
        }
    }

    /// Encodes the request into the OS flag word. A request that breaks the
    /// cross-field constraint is rejected here, before any OS interaction;
    /// every valid request encodes to exactly the bits of the table.
    pub fn flags(&self) -> (r: Result<u32, Error>)
        ensures
            self.valid() ==> r == Ok::<u32, Error>(self.spec_flags()),
            !self.valid() ==> r == Err::<u32, Error>(Error::InvalidRequest),
    {
        if !self.is_valid() {
            return Err(Error::InvalidRequest);
        }
        let action_bits: u32 = match self.action {
            SdcAction::Apply { no_optimization } => SDC_APPLY | bit(
                no_optimization,
                SDC_NO_OPTIMIZATION,
            ),
            SdcAction::Validate => SDC_VALIDATE,
        };
        let source_bits: u32 = match &self.config {
            SdcConfig::SuppliedConfig { force_mode_enumeration, save_to_database, .. } =>
                SDC_USE_SUPPLIED_DISPLAY_CONFIG | bit(
                *force_mode_enumeration,
                SDC_FORCE_MODE_ENUMERATION,
            ) | bit(*save_to_database, SDC_SAVE_TO_DATABASE),
            SdcConfig::SuppliedTopology { allow_path_order_changes, .. } => SDC_TOPOLOGY_SUPPLIED
                | bit(*allow_path_order_changes, SDC_ALLOW_PATH_ORDER_CHANGES),
            SdcConfig::Database { topologies, path_persist_if_required } => bit(
                topologies.internal,
                SDC_TOPOLOGY_INTERNAL,
            ) | bit(topologies.clone, SDC_TOPOLOGY_CLONE) | bit(
                topologies.extend,
                SDC_TOPOLOGY_EXTEND,
            ) | bit(topologies.external, SDC_TOPOLOGY_EXTERNAL) | bit(
                *path_persist_if_required,
                SDC_PATH_PERSIST_IF_REQUIRED,
            ),
        };
        let change_bits: u32 = bit(self.allow_changes, SDC_ALLOW_CHANGES);
        Ok(action_bits | source_bits | change_bits)
    }

    /// The path records to pass to the OS call, as an owned copy.
    pub fn paths(&self) -> (r: Vec<DisplayPath>)
        ensures
            r@ == self.spec_paths(),
    {
        match &self.config {
            SdcConfig::SuppliedConfig { paths, .. } => copy_records(paths),
            SdcConfig::SuppliedTopology { paths, .. } => copy_records(paths),
            SdcConfig::Database { .. } => {
                let r: Vec<DisplayPath> = Vec::new();
                proof {
                    assert(r@ =~= Seq::<DisplayPath>::empty());
                }
                r
            },
        }
    }

    /// The mode records to pass to the OS call, as an owned copy.
    pub fn modes(&self) -> (r: Vec<DisplayMode>)
        ensures
            r@ == self.spec_modes(),
    {
        match &self.config {
            SdcConfig::SuppliedConfig { modes, .. } => copy_records(modes),
            _ => {
                let r: Vec<DisplayMode> = Vec::new();
                proof {
                    assert(r@ =~= Seq::<DisplayMode>::empty());
                }
                r
            },
        }
    }

    /// Encodes the whole request in one step: the flag word and both
    /// buffers, or the rejection, with nothing prepared for the OS in the
    /// rejected case.
    pub fn encode(&self) -> (r: Result<EncodedApply, Error>)
        ensures
            self.valid() ==> (r matches Ok(e) && e.flags == self.spec_flags() && e.paths@
                == self.spec_paths() && e.modes@ == self.spec_modes()),
            !self.valid() ==> r == Err::<EncodedApply, Error>(Error::InvalidRequest),
    {
        let flags = match self.flags() {
            Ok(f) => f,
            Err(e) => {
                return Err(e);
            },
        };
        Ok(EncodedApply { flags, paths: self.paths(), modes: self.modes() })
    }
}

/// Whether a single flag is present in an encoded word.
pub open spec fn spec_has_bit(word: u32, flag: u32) -> bool {
    word & flag != 0
}

/// Law (encoding exactness): for every combination of action, source and
/// boolean sub-flags, the encoded word contains each flag of the table
/// exactly when its condition holds — the action bits are one-of, each
/// boolean sub-flag contributes its single bit, the database source
/// contributes one bit per selected topology class — and contains no bits
/// outside the table.
pub proof fn lemma_flags_exact(s: Sdc)
    ensures
        spec_has_bit(s.spec_flags(), SDC_APPLY) == (s.action is Apply),
        spec_has_bit(s.spec_flags(), SDC_VALIDATE) == (s.action is Validate),
        spec_has_bit(s.spec_flags(), SDC_NO_OPTIMIZATION) == (s.action matches SdcAction::Apply {
            no_optimization,
        } && no_optimization),
        spec_has_bit(s.spec_flags(), SDC_USE_SUPPLIED_DISPLAY_CONFIG) == (
        s.config is SuppliedConfig),
        spec_has_bit(s.spec_flags(), SDC_FORCE_MODE_ENUMERATION) == (
        s.config matches SdcConfig::SuppliedConfig { force_mode_enumeration, .. }
            && force_mode_enumeration),
        spec_has_bit(s.spec_flags(), SDC_SAVE_TO_DATABASE) == (
        s.config matches SdcConfig::SuppliedConfig { save_to_database, .. } && save_to_database),
        spec_has_bit(s.spec_flags(), SDC_TOPOLOGY_SUPPLIED) == (s.config is SuppliedTopology),
        spec_has_bit(s.spec_flags(), SDC_ALLOW_PATH_ORDER_CHANGES) == (
        s.config matches SdcConfig::SuppliedTopology { allow_path_order_changes, .. }
            && allow_path_order_changes),
        spec_has_bit(s.spec_flags(), SDC_TOPOLOGY_INTERNAL) == (
        s.config matches SdcConfig::Database { topologies, .. } && topologies.internal),
        spec_has_bit(s.spec_flags(), SDC_TOPOLOGY_CLONE) == (s.config matches SdcConfig::Database {
            topologies,
            ..
        } && topologies.clone),
        spec_has_bit(s.spec_flags(), SDC_TOPOLOGY_EXTEND) == (
        s.config matches SdcConfig::Database { topologies, .. } && topologies.extend),
        spec_has_bit(s.spec_flags(), SDC_TOPOLOGY_EXTERNAL) == (
        s.config matches SdcConfig::Database { topologies, .. } && topologies.external),
        spec_has_bit(s.spec_flags(), SDC_PATH_PERSIST_IF_REQUIRED) == (
        s.config matches SdcConfig::Database { path_persist_if_required, .. }
            && path_persist_if_required),
        spec_has_bit(s.spec_flags(), SDC_ALLOW_CHANGES) == s.allow_changes,
        s.spec_flags() & 0xFFFF_C000u32 == 0,
{
    let w = s.spec_flags();
    let ac = s.allow_changes;
    match (s.action, s.config) {
        (
            SdcAction::Apply { no_optimization },
            SdcConfig::SuppliedConfig { force_mode_enumeration, save_to_database, .. },
        ) => {
            assert((w & SDC_APPLY != 0) && (w & SDC_VALIDATE == 0) && (w & SDC_NO_OPTIMIZATION
                != 0) == no_optimization && (w & SDC_USE_SUPPLIED_DISPLAY_CONFIG != 0) && (w
                & SDC_FORCE_MODE_ENUMERATION != 0) == force_mode_enumeration && (w
                & SDC_SAVE_TO_DATABASE != 0) == save_to_database && (w & SDC_TOPOLOGY_SUPPLIED == 0)
                && (w & SDC_ALLOW_PATH_ORDER_CHANGES == 0) && (w & SDC_TOPOLOGY_INTERNAL == 0) && (w
                & SDC_TOPOLOGY_CLONE == 0) && (w & SDC_TOPOLOGY_EXTEND == 0) && (w
                & SDC_TOPOLOGY_EXTERNAL == 0) && (w & SDC_PATH_PERSIST_IF_REQUIRED == 0) && (w
                & SDC_ALLOW_CHANGES != 0) == ac && (w & 0xFFFF_C000u32 == 0)) by (bit_vector)
                requires
                    w == (SDC_APPLY | spec_bit(no_optimization, SDC_NO_OPTIMIZATION)) | (
                    SDC_USE_SUPPLIED_DISPLAY_CONFIG | spec_bit(
                        force_mode_enumeration,
                        SDC_FORCE_MODE_ENUMERATION,
                    ) | spec_bit(save_to_database, SDC_SAVE_TO_DATABASE)) | spec_bit(
                        ac,
                        SDC_ALLOW_CHANGES,
                    ),
            ;
        },
        (
            SdcAction::Apply { no_optimization },
            SdcConfig::SuppliedTopology { allow_path_order_changes, .. },
        ) => {
            assert((w & SDC_APPLY != 0) && (w & SDC_VALIDATE == 0) && (w & SDC_NO_OPTIMIZATION
                != 0) == no_optimization && (w & SDC_USE_SUPPLIED_DISPLAY_CONFIG == 0) && (w
                & SDC_FORCE_MODE_ENUMERATION == 0) && (w & SDC_SAVE_TO_DATABASE == 0) && (w
                & SDC_TOPOLOGY_SUPPLIED != 0) && (w & SDC_ALLOW_PATH_ORDER_CHANGES != 0)
                == allow_path_order_changes && (w & SDC_TOPOLOGY_INTERNAL == 0) && (w
                & SDC_TOPOLOGY_CLONE == 0) && (w & SDC_TOPOLOGY_EXTEND == 0) && (w
                & SDC_TOPOLOGY_EXTERNAL == 0) && (w & SDC_PATH_PERSIST_IF_REQUIRED == 0) && (w
                & SDC_ALLOW_CHANGES != 0) == ac && (w & 0xFFFF_C000u32 == 0)) by (bit_vector)
                requires
                    w == (SDC_APPLY | spec_bit(no_optimization, SDC_NO_OPTIMIZATION)) | (
                    SDC_TOPOLOGY_SUPPLIED | spec_bit(
                        allow_path_order_changes,
                        SDC_ALLOW_PATH_ORDER_CHANGES,
                    )) | spec_bit(ac, SDC_ALLOW_CHANGES),
            ;
        },
        (
            SdcAction::Apply { no_optimization },
            SdcConfig::Database { topologies, path_persist_if_required },
        ) => {
            let ti = topologies.internal;
            let tc = topologies.clone;
            let te = topologies.extend;
            let tx = topologies.external;
            assert((w & SDC_APPLY != 0) && (w & SDC_VALIDATE == 0) && (w & SDC_NO_OPTIMIZATION
                != 0) == no_optimization && (w & SDC_USE_SUPPLIED_DISPLAY_CONFIG == 0) && (w
                & SDC_FORCE_MODE_ENUMERATION == 0) && (w & SDC_SAVE_TO_DATABASE == 0) && (w
                & SDC_TOPOLOGY_SUPPLIED == 0) && (w & SDC_ALLOW_PATH_ORDER_CHANGES == 0) && (w
                & SDC_TOPOLOGY_INTERNAL != 0) == ti && (w & SDC_TOPOLOGY_CLONE != 0) == tc && (w
                & SDC_TOPOLOGY_EXTEND != 0) == te && (w & SDC_TOPOLOGY_EXTERNAL != 0) == tx && (w
                & SDC_PATH_PERSIST_IF_REQUIRED != 0) == path_persist_if_required && (w
                & SDC_ALLOW_CHANGES != 0) == ac && (w & 0xFFFF_C000u32 == 0)) by (bit_vector)
                requires
                    w == (SDC_APPLY | spec_bit(no_optimization, SDC_NO_OPTIMIZATION)) | (spec_bit(
                        ti,
                        SDC_TOPOLOGY_INTERNAL,
                    ) | spec_bit(tc, SDC_TOPOLOGY_CLONE) | spec_bit(te, SDC_TOPOLOGY_EXTEND)
                        | spec_bit(tx, SDC_TOPOLOGY_EXTERNAL) | spec_bit(
                        path_persist_if_required,
                        SDC_PATH_PERSIST_IF_REQUIRED,
                    )) | spec_bit(ac, SDC_ALLOW_CHANGES),
            ;
        },
        (
            SdcAction::Validate,
            SdcConfig::SuppliedConfig { force_mode_enumeration, save_to_database, .. },
        ) => {
            assert((w & SDC_APPLY == 0) && (w & SDC_VALIDATE != 0) && (w & SDC_NO_OPTIMIZATION == 0)
                && (w & SDC_USE_SUPPLIED_DISPLAY_CONFIG != 0) && (w & SDC_FORCE_MODE_ENUMERATION
                != 0) == force_mode_enumeration && (w & SDC_SAVE_TO_DATABASE != 0)
                == save_to_database && (w & SDC_TOPOLOGY_SUPPLIED == 0) && (w
                & SDC_ALLOW_PATH_ORDER_CHANGES == 0) && (w & SDC_TOPOLOGY_INTERNAL == 0) && (w
                & SDC_TOPOLOGY_CLONE == 0) && (w & SDC_TOPOLOGY_EXTEND == 0) && (w
                & SDC_TOPOLOGY_EXTERNAL == 0) && (w & SDC_PATH_PERSIST_IF_REQUIRED == 0) && (w
                & SDC_ALLOW_CHANGES != 0) == ac && (w & 0xFFFF_C000u32 == 0)) by (bit_vector)
                requires
                    w == SDC_VALIDATE | (SDC_USE_SUPPLIED_DISPLAY_CONFIG | spec_bit(
                        force_mode_enumeration,
                        SDC_FORCE_MODE_ENUMERATION,
                    ) | spec_bit(save_to_database, SDC_SAVE_TO_DATABASE)) | spec_bit(
                        ac,
                        SDC_ALLOW_CHANGES,
                    ),
            ;
        },
        (SdcAction::Validate, SdcConfig::SuppliedTopology { allow_path_order_changes, .. }) => {
            assert((w & SDC_APPLY == 0) && (w & SDC_VALIDATE != 0) && (w & SDC_NO_OPTIMIZATION == 0)
                && (w & SDC_USE_SUPPLIED_DISPLAY_CONFIG == 0) && (w & SDC_FORCE_MODE_ENUMERATION
                == 0) && (w & SDC_SAVE_TO_DATABASE == 0) && (w & SDC_TOPOLOGY_SUPPLIED != 0) && (w
                & SDC_ALLOW_PATH_ORDER_CHANGES != 0) == allow_path_order_changes && (w
                & SDC_TOPOLOGY_INTERNAL == 0) && (w & SDC_TOPOLOGY_CLONE == 0) && (w
                & SDC_TOPOLOGY_EXTEND == 0) && (w & SDC_TOPOLOGY_EXTERNAL == 0) && (w
                & SDC_PATH_PERSIST_IF_REQUIRED == 0) && (w & SDC_ALLOW_CHANGES != 0) == ac && (w
                & 0xFFFF_C000u32 == 0)) by (bit_vector)
                requires
                    w == SDC_VALIDATE | (SDC_TOPOLOGY_SUPPLIED | spec_bit(
                        allow_path_order_changes,
                        SDC_ALLOW_PATH_ORDER_CHANGES,
                    )) | spec_bit(ac, SDC_ALLOW_CHANGES),
            ;
        },
        (SdcAction::Validate, SdcConfig::Database { topologies, path_persist_if_required }) => {
            let ti = topologies.internal;
            let tc = topologies.clone;
            let te = topologies.extend;
            let tx = topologies.external;
            assert((w & SDC_APPLY == 0) && (w & SDC_VALIDATE != 0) && (w & SDC_NO_OPTIMIZATION == 0)
                && (w & SDC_USE_SUPPLIED_DISPLAY_CONFIG == 0) && (w & SDC_FORCE_MODE_ENUMERATION
                == 0) && (w & SDC_SAVE_TO_DATABASE == 0) && (w & SDC_TOPOLOGY_SUPPLIED == 0) && (w
                & SDC_ALLOW_PATH_ORDER_CHANGES == 0) && (w & SDC_TOPOLOGY_INTERNAL != 0) == ti && (w
                & SDC_TOPOLOGY_CLONE != 0) == tc && (w & SDC_TOPOLOGY_EXTEND != 0) == te && (w
                & SDC_TOPOLOGY_EXTERNAL != 0) == tx && (w & SDC_PATH_PERSIST_IF_REQUIRED != 0)
                == path_persist_if_required && (w & SDC_ALLOW_CHANGES != 0) == ac && (w
                & 0xFFFF_C000u32 == 0)) by (bit_vector)
                requires
                    w == SDC_VALIDATE | (spec_bit(ti, SDC_TOPOLOGY_INTERNAL) | spec_bit(
                        tc,
                        SDC_TOPOLOGY_CLONE,
                    ) | spec_bit(te, SDC_TOPOLOGY_EXTEND) | spec_bit(tx, SDC_TOPOLOGY_EXTERNAL)
                        | spec_bit(path_persist_if_required, SDC_PATH_PERSIST_IF_REQUIRED))
                        | spec_bit(ac, SDC_ALLOW_CHANGES),
            ;
        },
    }
}

/// Everything the single OS apply call needs: the encoded flag word and the
/// two record buffers selected from the request's source.
#[derive(Clone, Debug)]
pub struct EncodedApply {
    pub flags: u32,
    pub paths: Vec<DisplayPath>,
    pub modes: Vec<DisplayMode>,
}

/// The given flag when the condition holds, and no bits otherwise.
fn bit(condition: bool, flag: u32) -> (r: u32)
    ensures
        r == spec_bit(condition, flag),
{
    if condition {
        flag
    } else {
        0
    }
}

/// An owned copy of a record buffer.
fn copy_records<T: Copy>(src: &Vec<T>) -> (r: Vec<T>)
    ensures
        r@ == src@,
{
    let mut out: Vec<T> = Vec::new();
    let mut i: usize = 0;
    while i < src.len()
        invariant
            i <= src@.len(),
            out@ == src@.take(i as int),
        decreases src@.len() - i,
    {
        out.push(src[i]);
        proof {
            assert(src@.take(i + 1 as int) =~= src@.take(i as int).push(src@[i as int]));
        }
        i = i + 1;
    }
    proof {
        assert(src@.take(src@.len() as int) =~= src@);
    }
    out
}

impl Default for SdcAction {
    /// Applying with optimization permitted.
    fn default() -> (d: Self)
        ensures
            d == (SdcAction::Apply { no_optimization: false }),
    {
        SdcAction::Apply { no_optimization: false }
    }
}

impl SdcDatabaseTopologies {
    /// The selector matching every topology class, i.e. whatever
    /// configuration the database currently holds.
    pub fn current() -> (t: Self)
        ensures
            t == (SdcDatabaseTopologies {
                internal: true,
                clone: true,
                extend: true,
                external: true,
            }),
    {
        SdcDatabaseTopologies { internal: true, clone: true, extend: true, external: true }
    }
}

impl Default for SdcDatabaseTopologies {
    /// The all-classes selector.
    fn default() -> (d: Self)
        ensures
            d == (SdcDatabaseTopologies {
                internal: true,
                clone: true,
                extend: true,
                external: true,
            }),
    {
        SdcDatabaseTopologies::current()
    }
}

impl Default for SdcConfig {
    /// The database source with the all-classes selector.
    fn default() -> (d: Self)
        ensures
            d == (SdcConfig::Database {
                topologies: SdcDatabaseTopologies {
                    internal: true,
                    clone: true,
                    extend: true,
                    external: true,
                },
                path_persist_if_required: false,
            }),
    {
        SdcConfig::Database {
            topologies: SdcDatabaseTopologies::current(),
            path_persist_if_required: false,
        }
    }
}

impl Default for Sdc {
    /// Apply whatever the database currently holds, changing nothing else.
    fn default() -> (d: Self)
        ensures
            d.action == (SdcAction::Apply { no_optimization: false }),
            d.config == (SdcConfig::Database {
                topologies: SdcDatabaseTopologies {
                    internal: true,
                    clone: true,
                    extend: true,
                    external: true,
                },
                path_persist_if_required: false,
            }),
            !d.allow_changes,
    {
        Sdc { action: Default::default(), config: Default::default(), allow_changes: false }
    }
}

} // verus!
