//! Configs: a profile and entrypoint with their attributes, and the surface
//! attributes that the driver supports for them.

use vstd::prelude::*;
use std::rc::Rc;
use crate::bindings::VAConfigID;
use crate::bindings::VAStatus;
use crate::bindings::VASurfaceAttrib;
use crate::bindings::VASurfaceAttribType;
use crate::display::Display;
use crate::generic_value::GenericValue;
use crate::generic_value::GenericValueError;
use crate::generic_value::decoded;
use crate::query::first_entries;
use crate::query::reported;
use crate::status::VaError;
use crate::status::va_check;

verus! {

/// A configuration for a given display.
#[derive(Debug)]
pub struct Config {
    display: Rc<Display>,
    id: VAConfigID,
}

/// What a [`Config`] holds.
pub struct ConfigView {
    /// Handle of the display that the config belongs to.
    pub display: crate::bindings::VADisplay,
    /// Identifier of the config.
    pub id: VAConfigID,
}

impl View for Config {
    type V = ConfigView;

    closed spec fn view(&self) -> ConfigView {
        ConfigView { display: self.display@, id: self.id }
    }
}

/// Why the surface attributes of a config could not be had.
#[derive(Debug)]
pub enum QuerySurfaceAttributesError {
    /// The driver failed the query.
    VaError(VaError),
    /// An attribute value has a discriminant that names no known kind.
    GenericValueError(GenericValueError),
}

/// The decoded values of the attributes of kind `attr_type` in `attrs`, in
/// their order, or the error of the first of them that cannot be decoded.
pub open spec fn values_of_type(attrs: Seq<VASurfaceAttrib>, attr_type: VASurfaceAttribType) -> Result<
    Seq<GenericValue>,
    GenericValueError,
>
    decreases attrs.len(),
{
    if attrs.len() == 0 {
        Ok(Seq::empty())
    } else if attrs[0].type_ != attr_type {
        values_of_type(attrs.skip(1), attr_type)
    } else {
        match decoded(attrs[0].value) {
            Err(e) => Err(e),
            Ok(value) => match values_of_type(attrs.skip(1), attr_type) {
                Err(e) => Err(e),
                Ok(rest) => Ok(seq![value] + rest),
            },
        }
    }
}

impl Config {
    /// Makes the config of `display` from what the driver returned when
    /// asked to create it: its status and the identifier of the new config.
    pub fn new(display: Rc<Display>, status: VAStatus, config_id: VAConfigID) -> (r: Result<
        Self,
        VaError,
    >)
        ensures
            r is Ok <==> status == 0,
            r matches Ok(config) ==> config@ == (ConfigView { display: display@, id: config_id }),
            r matches Err(e) ==> e.code() == status,
    {
        match va_check(status) {
            Ok(()) => Ok(Config { display, id: config_id }),
            Err(e) => Err(e),
        }
    }

    /// Returns the identifier of this config.
    pub fn id(&self) -> (id: VAConfigID)
        ensures
            id == self@.id,
    {
        self.id
    }

    /// Returns the display that this config belongs to.
    pub fn display(&self) -> (display: &Rc<Display>)
        ensures
            display@ == self@.display,
    {
        &self.display
    }

    /// First half of the query for the surface attributes of this config:
    /// from the status of the call that asks how many there are and the
    /// count that it reported, the number of entries to allocate.
    pub fn surface_attributes_capacity(&self, status: VAStatus, count: u32) -> (r: Result<
        usize,
        VaError,
    >)
        ensures
            r is Ok <==> status == 0,
            r matches Ok(capacity) ==> capacity == count,
            r matches Err(e) ==> e.code() == status,
    {
        match va_check(status) {
            Ok(()) => Ok(count as usize),
            Err(e) => Err(e),
        }
    }

    /// Second half of the query for the surface attributes of this config:
    /// from the list that the driver filled, the status of that call and the
    /// count that it reported, all supported attributes. If the hardware
    /// supports surfaces in various formats, every pixel format is among
    /// them.
    pub fn query_surface_attributes(
        &self,
        status: VAStatus,
        attrs: Vec<VASurfaceAttrib>,
        count: u32,
    ) -> (r: Result<Vec<VASurfaceAttrib>, VaError>)
        ensures
            r is Ok <==> status == 0,
            r matches Ok(v) ==> v@ == reported(attrs@, count as int),
            r matches Err(e) ==> e.code() == status,
    {
        match va_check(status) {
            Ok(()) => Ok(first_entries(attrs, count as usize)),
            Err(e) => Err(e),
        }
    }

    /// The surface attributes of kind `attr_type` among those that the query
    /// gave, decoded. The attribute may or may not be defined by the driver.
    /// An error of the query is passed on; a value that cannot be decoded
    /// fails the whole list.
    pub fn query_surface_attributes_by_type(
        &self,
        attr_type: VASurfaceAttribType,
        surface_attributes: Result<Vec<VASurfaceAttrib>, VaError>,
    ) -> (r: Result<Vec<GenericValue>, QuerySurfaceAttributesError>)
        ensures
            match surface_attributes {
                Err(e) => r matches Err(QuerySurfaceAttributesError::VaError(f)) && f.code()
                    == e.code(),
                Ok(attrs) => match values_of_type(attrs@, attr_type) {
                    Ok(values) => r matches Ok(v) && v@ == values,
                    Err(e) => r matches Err(QuerySurfaceAttributesError::GenericValueError(f)) && f
                        == e,
                },
            },
    {
        match surface_attributes {
            Err(e) => Err(QuerySurfaceAttributesError::VaError(e)),
            Ok(attrs) => match decode_of_type(&attrs, attr_type) {
                Ok(values) => Ok(values),
                Err(e) => Err(QuerySurfaceAttributesError::GenericValueError(e)),
            },
        }
    }
}

/// Decodes the values of the attributes of kind `attr_type` in `attrs`, and
/// stops at the first that cannot be decoded.
fn decode_of_type(attrs: &Vec<VASurfaceAttrib>, attr_type: VASurfaceAttribType) -> (r: Result<
    Vec<GenericValue>,
    GenericValueError,
>)
    ensures
        match values_of_type(attrs@, attr_type) {
            Ok(values) => r matches Ok(v) && v@ == values,
            Err(e) => r == Err::<Vec<GenericValue>, GenericValueError>(e),
        },
{
    let mut values: Vec<GenericValue> = Vec::new();
    let mut i: usize = 0;
    proof {
        assert(attrs@.skip(0) =~= attrs@);
    }
    while i < attrs.len()
        invariant
            i <= attrs.len(),
            match values_of_type(attrs@.skip(i as int), attr_type) {
                Ok(rest) => values_of_type(attrs@, attr_type) == Ok::<
                    Seq<GenericValue>,
                    GenericValueError,
                >(values@ + rest),
                Err(e) => values_of_type(attrs@, attr_type) == Err::<
                    Seq<GenericValue>,
                    GenericValueError,
                >(e),
            },
        decreases attrs.len() - i,
    {
        let attr = attrs[i];
        proof {
            assert(attrs@.skip(i as int)[0] == attrs@[i as int]);
            assert(attrs@.skip(i as int).skip(1) =~= attrs@.skip(i + 1));
        }
        if attr.type_ == attr_type {
            match GenericValue::try_from(attr.value) {
                Ok(value) => {
                    let ghost before = values@;
                    values.push(value);
                    proof {
                        match values_of_type(attrs@.skip(i + 1), attr_type) {
                            Ok(rest) => {
                                assert(before + (seq![value] + rest) =~= values@ + rest);
                            },
                            Err(_) => {},
                        }
                    }
                },
                Err(e) => {
                    return Err(e);
                },
            }
        }
        i = i + 1;
    }
    proof {
        assert(values@ + Seq::<GenericValue>::empty() =~= values@);
    }
    Ok(values)
}

} // verus!
