//! The relations between descriptors from which the edges of the graph are
//! drawn: membership in a schema, use of a declared type, conversion for a
//! type, and the relation a trigger is bound to.

use vstd::prelude::*;
use vstd::string::*;
use crate::SqlGraphEntity;
use crate::aggregate::PgAggregateEntity;
use crate::mapping::{mappings_register, registers};
use crate::pg_extern::{PgExternEntity, PgExternReturnEntity};
use crate::postgres_type::PostgresTypeEntity;
use crate::text::{ends_with, starts_with, str_eq};
use crate::used_type::UsedTypeEntity;

verus! {

impl PostgresTypeEntity {
    /// Whether `function` is the input converter of this type: its path
    /// begins with the converter's module and ends with the converter's
    /// name.
    pub open spec fn reads_with(self, function: PgExternEntity) -> bool {
        &&& self.in_fn_module_path@.is_prefix_of(function.full_path@)
        &&& self.in_fn@.is_suffix_of(function.full_path@)
    }

    /// Whether `function` is the output converter of this type.
    pub open spec fn writes_with(self, function: PgExternEntity) -> bool {
        &&& self.out_fn_module_path@.is_prefix_of(function.full_path@)
        &&& self.out_fn@.is_suffix_of(function.full_path@)
    }

    /// Whether `function` is one of the two converters of this type.
    pub open spec fn converts_with(self, function: PgExternEntity) -> bool {
        self.reads_with(function) || self.writes_with(function)
    }

    /// Tells whether `function` is the input converter of this type.
    pub fn is_input_converter(&self, function: &PgExternEntity) -> (found: bool)
        ensures
            found == self.reads_with(*function),
    {
        starts_with(function.full_path, self.in_fn_module_path.as_str()) && ends_with(
            function.full_path,
            self.in_fn,
        )
    }

    /// Tells whether `function` is the output converter of this type.
    pub fn is_output_converter(&self, function: &PgExternEntity) -> (found: bool)
        ensures
            found == self.writes_with(*function),
    {
        starts_with(function.full_path, self.out_fn_module_path.as_str()) && ends_with(
            function.full_path,
            self.out_fn,
        )
    }

    /// Tells whether `function` is one of the two converters of this type.
    pub fn is_converter(&self, function: &PgExternEntity) -> (found: bool)
        ensures
            found == self.converts_with(*function),
    {
        self.is_input_converter(function) || self.is_output_converter(function)
    }
}

impl PgExternEntity {
    /// Whether some argument of the function, or what it returns, is of a
    /// type that `declarer` declares.
    pub open spec fn uses_type_of(self, declarer: SqlGraphEntity) -> bool {
        ||| exists|k: int|
            0 <= k < self.fn_args@.len() && declarer.declares((#[trigger] self.fn_args@[k]).used_ty)
        ||| match self.fn_return {
            PgExternReturnEntity::Type { ty } => declarer.declares(ty),
            PgExternReturnEntity::SetOf { ty } => declarer.declares(ty),
            _ => false,
        }
    }

    /// Tells whether the function uses a type that `declarer` declares.
    pub fn uses_declared_type(&self, declarer: &SqlGraphEntity) -> (found: bool)
        ensures
            found == self.uses_type_of(*declarer),
    {
        let returned = match &self.fn_return {
            PgExternReturnEntity::Type { ty } => declarer.declares_type(ty),
            PgExternReturnEntity::SetOf { ty } => declarer.declares_type(ty),
            _ => false,
        };
        if returned {
            return true;
        }
        let mut i: usize = 0;
        while i < self.fn_args.len()
            invariant
                i <= self.fn_args@.len(),
                forall|k: int|
                    0 <= k < i ==> !declarer.declares((#[trigger] self.fn_args@[k]).used_ty),
            decreases self.fn_args@.len() - i,
        {
            if declarer.declares_type(&self.fn_args[i].used_ty) {
                return true;
            }
            i += 1;
        }
        false
    }
}

impl PgAggregateEntity {
    /// Whether the state of the aggregate, or one of its arguments, is of a
    /// type that `declarer` declares.
    pub open spec fn uses_type_of(self, declarer: SqlGraphEntity) -> bool {
        ||| declarer.declares(self.stype)
        ||| exists|k: int|
            0 <= k < self.args@.len() && declarer.declares((#[trigger] self.args@[k]).used_ty)
    }

    /// Tells whether the aggregate uses a type that `declarer` declares.
    pub fn uses_declared_type(&self, declarer: &SqlGraphEntity) -> (found: bool)
        ensures
            found == self.uses_type_of(*declarer),
    {
        if declarer.declares_type(&self.stype) {
            return true;
        }
        let mut i: usize = 0;
        while i < self.args.len()
            invariant
                i <= self.args@.len(),
                forall|k: int| 0 <= k < i ==> !declarer.declares((#[trigger] self.args@[k]).used_ty),
            decreases self.args@.len() - i,
        {
            if declarer.declares_type(&self.args[i].used_ty) {
                return true;
            }
            i += 1;
        }
        false
    }
}

impl SqlGraphEntity {
    /// The source module of an entity that can live in a schema.
    pub open spec fn home_module(self) -> Option<&'static str> {
        match self {
            SqlGraphEntity::CustomSql(item) => Some(item.source_module_path),
            SqlGraphEntity::Function(item) => Some(item.source_module_path),
            SqlGraphEntity::Type(item) => Some(item.source_module_path),
            SqlGraphEntity::Enum(item) => Some(item.source_module_path),
            SqlGraphEntity::Ord(item) => Some(item.source_module_path),
            SqlGraphEntity::Hash(item) => Some(item.source_module_path),
            SqlGraphEntity::Aggregate(item) => Some(item.source_module_path),
            SqlGraphEntity::Trigger(item) => Some(item.source_module_path),
            _ => None,
        }
    }

    /// Gives the source module of an entity that can live in a schema.
    pub fn module(&self) -> (home: Option<&'static str>)
        ensures
            home == self.home_module(),
    {
        match self {
            SqlGraphEntity::CustomSql(item) => Some(item.source_module_path),
            SqlGraphEntity::Function(item) => Some(item.source_module_path),
            SqlGraphEntity::Type(item) => Some(item.source_module_path),
            SqlGraphEntity::Enum(item) => Some(item.source_module_path),
            SqlGraphEntity::Ord(item) => Some(item.source_module_path),
            SqlGraphEntity::Hash(item) => Some(item.source_module_path),
            SqlGraphEntity::Aggregate(item) => Some(item.source_module_path),
            SqlGraphEntity::Trigger(item) => Some(item.source_module_path),
            _ => None,
        }
    }

    /// Whether this entity declares the type that `used` refers to: a type
    /// or an enum by a registration for the type's token, a type of the
    /// database itself by its path.
    pub open spec fn declares(self, used: UsedTypeEntity) -> bool {
        match self {
            SqlGraphEntity::Type(item) => registers(item.mappings@, used.ty_id),
            SqlGraphEntity::Enum(item) => registers(item.mappings@, used.ty_id),
            SqlGraphEntity::BuiltinType(name) => name@ == used.full_path@,
            _ => false,
        }
    }

    /// Tells whether this entity declares the type that `used` refers to.
    pub fn declares_type(&self, used: &UsedTypeEntity) -> (found: bool)
        ensures
            found == self.declares(*used),
    {
        match self {
            SqlGraphEntity::Type(item) => mappings_register(&item.mappings, &used.ty_id),
            SqlGraphEntity::Enum(item) => mappings_register(&item.mappings, &used.ty_id),
            SqlGraphEntity::BuiltinType(name) => str_eq(name.as_str(), used.full_path),
            _ => false,
        }
    }

    /// Whether this entity lives in the schema `owner`: `owner` is a schema
    /// and was declared by this entity's source module.
    pub open spec fn lives_in(self, owner: SqlGraphEntity) -> bool {
        &&& owner matches SqlGraphEntity::Schema(schema)
        &&& self.home_module() matches Some(home)
        &&& home@ == schema.source_module_path@
    }

    /// Whether a type that this entity uses is declared by `declarer`.
    pub open spec fn uses(self, declarer: SqlGraphEntity) -> bool {
        match self {
            SqlGraphEntity::Function(item) => item.uses_type_of(declarer),
            SqlGraphEntity::Aggregate(item) => item.uses_type_of(declarer),
            SqlGraphEntity::Ord(item) => match declarer {
                SqlGraphEntity::Type(ty) => registers(ty.mappings@, item.id),
                SqlGraphEntity::Enum(ty) => registers(ty.mappings@, item.id),
                _ => false,
            },
            SqlGraphEntity::Hash(item) => match declarer {
                SqlGraphEntity::Type(ty) => registers(ty.mappings@, item.id),
                SqlGraphEntity::Enum(ty) => registers(ty.mappings@, item.id),
                _ => false,
            },
            _ => false,
        }
    }

    /// Whether this entity is a type and `converter` one of its converter
    /// functions.
    pub open spec fn converts_with(self, converter: SqlGraphEntity) -> bool {
        &&& self matches SqlGraphEntity::Type(ty)
        &&& converter matches SqlGraphEntity::Function(function)
        &&& ty.converts_with(function)
    }

    /// Whether this entity is a trigger and `target` the hand-written SQL
    /// that is named like the relation it is bound to.
    pub open spec fn fires_on(self, target: SqlGraphEntity) -> bool {
        &&& self matches SqlGraphEntity::Trigger(trigger)
        &&& target matches SqlGraphEntity::CustomSql(sql)
        &&& trigger.relation@ == sql.name@
    }

    /// Whether a field of this entity refers to `other`.
    pub open spec fn references(self, other: SqlGraphEntity) -> bool {
        ||| self.lives_in(other)
        ||| self.uses(other)
        ||| self.converts_with(other)
        ||| self.fires_on(other)
    }

    /// Whether an edge joins the two entities: one refers to the other.
    pub open spec fn related(self, other: SqlGraphEntity) -> bool {
        self.references(other) || other.references(self)
    }

    /// Tells whether a field of this entity refers to `other`.
    pub fn refers_to(&self, other: &SqlGraphEntity) -> (found: bool)
        ensures
            found == self.references(*other),
    {
        let lives = match (self.module(), other) {
            (Some(home), SqlGraphEntity::Schema(schema)) => str_eq(home, schema.source_module_path),
            _ => false,
        };
        if lives {
            return true;
        }
        match self {
            SqlGraphEntity::Function(item) => item.uses_declared_type(other),
            SqlGraphEntity::Aggregate(item) => item.uses_declared_type(other),
            SqlGraphEntity::Ord(item) => match other {
                SqlGraphEntity::Type(ty) => mappings_register(&ty.mappings, &item.id),
                SqlGraphEntity::Enum(ty) => mappings_register(&ty.mappings, &item.id),
                _ => false,
            },
            SqlGraphEntity::Hash(item) => match other {
                SqlGraphEntity::Type(ty) => mappings_register(&ty.mappings, &item.id),
                SqlGraphEntity::Enum(ty) => mappings_register(&ty.mappings, &item.id),
                _ => false,
            },
            SqlGraphEntity::Type(ty) => match other {
                SqlGraphEntity::Function(function) => ty.is_converter(function),
                _ => false,
            },
            SqlGraphEntity::Trigger(trigger) => match other {
                SqlGraphEntity::CustomSql(sql) => str_eq(trigger.relation, sql.name),
                _ => false,
            },
            _ => false,
        }
    }

    /// Tells whether an edge joins the two entities.
    pub fn is_related_to(&self, other: &SqlGraphEntity) -> (found: bool)
        ensures
            found == self.related(*other),
    {
        self.refers_to(other) || other.refers_to(self)
    }
}

} // verus!
