//! Register map access: field declarations, their binding to a backend, and
//! the typed accessors that turn field operations into bus requests.

pub mod access;
pub mod desc;
pub mod field;
pub mod request;

use crate::error::Error;
use crate::regmap::desc::{reg_allows, ConfigOps, FieldDesc, FieldsDesc};
use crate::regmap::field::Fields;
use crate::regmap::request::Request;
use vstd::prelude::*;

verus! {

/// Type of caching
#[derive(Clone, Copy, Debug, PartialEq, Eq, Structural)]
pub enum CacheType {
    /// Don't cache anything
    NoCache,
    /// Use RbTree caching
    RbTree,
    /// Use Flat caching
    Flat,
    /// Use Maple caching
    Maple,
}

/// Regmap Configuration
#[derive(Clone, Copy, Debug, PartialEq, Eq, Structural)]
pub struct Config {
    /// Number of bits in a register address.
    pub reg_bits: i32,
    /// Number of bits in a register value.
    pub val_bits: i32,
    /// The maximum valid register address; zero leaves addresses unbounded.
    pub max_register: u32,
    /// Type of caching being performed.
    pub cache_type: CacheType,
}

impl Config {
    /// Create a new regmap Config
    pub fn new(reg_bits: i32, val_bits: i32) -> (config: Config)
        ensures
            config == (Config { reg_bits, val_bits, max_register: 0, cache_type: CacheType::NoCache }),
    {
        Config { reg_bits, val_bits, max_register: 0, cache_type: CacheType::NoCache }
    }

    /// Specifies the maximum valid register address.
    pub fn with_max_register(self, max_register: u32) -> (config: Config)
        ensures
            config == (Config { max_register, ..self }),
    {
        Config { max_register, ..self }
    }

    /// Type of caching being performed.
    pub fn with_cache_type(self, cache_type: CacheType) -> (config: Config)
        ensures
            config == (Config { cache_type, ..self }),
    {
        Config { cache_type, ..self }
    }

    /// The address `reg` lies inside the configured address range.
    pub open spec fn spec_in_range(self, reg: u32) -> bool {
        self.max_register == 0 || reg <= self.max_register
    }

    /// The descriptor's span lies inside a register value of `val_bits` bits
    /// and its register inside the address range.
    pub open spec fn admits(self, field: FieldDesc) -> bool {
        field.range.msb < self.val_bits && self.spec_in_range(field.range.reg)
    }

    /// Tests whether `reg` lies inside the configured address range.
    pub fn in_range(&self, reg: u32) -> (yes: bool)
        ensures
            yes == self.spec_in_range(reg),
    {
        self.max_register == 0 || reg <= self.max_register
    }
}

/// Register map
///
/// The description of a register backend: its configuration and the table
/// that says how each register may be accessed.
pub struct Regmap<'a> {
    config: Config,
    ops: &'a FieldsDesc,
}

impl<'a> Regmap<'a> {
    /// The configuration the map was made with.
    pub closed spec fn config(&self) -> Config {
        self.config
    }

    /// The declaration that answers the map's access questions.
    pub closed spec fn ops(&self) -> Seq<FieldDesc> {
        self.ops@
    }

    /// Describes a register map over `config` whose access questions `ops` answers.
    pub fn new(config: Config, ops: &'a FieldsDesc) -> (regmap: Regmap<'a>)
        ensures
            regmap.config() == config,
            regmap.ops() == ops@,
    {
        Regmap { config, ops }
    }

    /// What `read` answers for register `reg`.
    pub open spec fn spec_read(&self, reg: u32) -> Result<Request, Error> {
        if self.config().spec_in_range(reg) && reg_allows(self.ops(), reg, access::READ) {
            Ok(Request::Read { reg })
        } else {
            Err(Error::PermissionDenied)
        }
    }

    /// What `update_bits` answers for register `reg`.
    pub open spec fn spec_update_bits(&self, reg: u32, mask: u32, value: u32, force: bool) -> Result<
        Request,
        Error,
    > {
        if self.config().spec_in_range(reg) && reg_allows(self.ops(), reg, access::WRITE) {
            Ok(Request::Update { reg, mask, value, force })
        } else {
            Err(Error::PermissionDenied)
        }
    }

    /// Names the read of register `reg`; refused when the register lies
    /// outside the address range or is not declared readable.
    pub fn read(&self, reg: u32) -> (request: Result<Request, Error>)
        ensures
            request == self.spec_read(reg),
    {
        if self.config.in_range(reg) && self.ops.is_readable_reg(reg) {
            Ok(Request::Read { reg })
        } else {
            Err(Error::PermissionDenied)
        }
    }

    /// Names the update of the bits `mask` of register `reg` to those of
    /// `value`; refused when the register lies outside the address range or
    /// is not declared writable.
    pub fn update_bits(&self, reg: u32, mask: u32, value: u32, force: bool) -> (request: Result<
        Request,
        Error,
    >)
        ensures
            request == self.spec_update_bits(reg, mask, value, force),
    {
        if self.config.in_range(reg) && self.ops.is_writeable_reg(reg) {
            Ok(Request::Update { reg, mask, value, force })
        } else {
            Err(Error::PermissionDenied)
        }
    }

    /// Binds the declaration `reg_fields` to this map: one handle per
    /// descriptor, in declaration order. The whole binding is refused, and no
    /// table made, when some descriptor reaches beyond the map's value width
    /// or address range.
    pub fn alloc_fields(&self, reg_fields: &'a FieldsDesc) -> (fields: Result<Fields<'a>, Error>)
        ensures
            fields is Ok <==> forall|i: int|
                0 <= i < reg_fields@.len() ==> self.config().admits(#[trigger] reg_fields@[i]),
            fields matches Ok(f) ==> {
                &&& f.wf()
                &&& f.desc() == reg_fields@
                &&& forall|i: int|
                    0 <= i < reg_fields@.len() ==> (#[trigger] f.handles()[i]).permits(
                        reg_fields@[i],
                        self.ops(),
                    )
            },
            fields matches Err(e) ==> e == Error::InvalidArgument,
    {
        let n = reg_fields.count();
        let mut i: usize = 0;
        while i < n
            invariant
                n == reg_fields@.len(),
                i <= n,
                forall|k: int| 0 <= k < i ==> self.config().admits(#[trigger] reg_fields@[k]),
            decreases n - i,
        {
            let field = reg_fields.field(i);
            if !(self.config.val_bits > 0 && field.range.msb < self.config.val_bits as u32
                && self.config.in_range(field.range.reg)) {
                return Err(Error::InvalidArgument);
            }
            i += 1;
        }
        proof {
            use_type_invariant(reg_fields);
        }
        Ok(Fields::bind(reg_fields, self.ops))
    }
}

} // verus!
