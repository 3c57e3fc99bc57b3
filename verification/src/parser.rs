//! The thin invoker that binds one parsing strategy to one unit of fetched
//! content, and the numeric-conversion policy every strategy shares.

use vstd::prelude::*;
use crate::errors::ParseError;
use crate::numeric::{
    comma_core, decimal_text_val, int_text_val, parse_decimal_with_comma, parse_i32_with_comma,
    parse_i64_with_comma, parse_usize_with_comma, uint_text_val, Decimal,
};

verus! {

/// The shared numeric policy: integers and decimals with thousands
/// separators and surrounding whitespace, nothing else.
pub trait Conversion {
    /// Parses integer text with separators into an `i64`.
    fn parse_i64_with_comma(&self, data: &str) -> (r: Result<i64, ParseError>)
        ensures
            match int_text_val(comma_core(data@)) {
                Some(n) => if i64::MIN <= n <= i64::MAX {
                    r == Ok::<i64, ParseError>(n as i64)
                } else {
                    r matches Err(ParseError::ConversionError(t)) && t@ == comma_core(data@)
                },
                None => r matches Err(ParseError::ConversionError(t)) && t@ == comma_core(data@),
            },
    {
        parse_i64_with_comma(data)
    }

    /// Parses integer text with separators into an `i32`.
    fn parse_i32_with_comma(&self, data: &str) -> (r: Result<i32, ParseError>)
        ensures
            match int_text_val(comma_core(data@)) {
                Some(n) => if i32::MIN <= n <= i32::MAX {
                    r == Ok::<i32, ParseError>(n as i32)
                } else {
                    r matches Err(ParseError::ConversionError(t)) && t@ == comma_core(data@)
                },
                None => r matches Err(ParseError::ConversionError(t)) && t@ == comma_core(data@),
            },
    {
        parse_i32_with_comma(data)
    }

    /// Parses unsigned integer text with separators into a `usize`.
    fn parse_usize_with_comma(&self, data: &str) -> (r: Result<usize, ParseError>)
        ensures
            match uint_text_val(comma_core(data@)) {
                Some(n) => if n <= usize::MAX {
                    r == Ok::<usize, ParseError>(n as usize)
                } else {
                    r matches Err(ParseError::ConversionError(t)) && t@ == comma_core(data@)
                },
                None => r matches Err(ParseError::ConversionError(t)) && t@ == comma_core(data@),
            },
    {
        parse_usize_with_comma(data)
    }

    /// Parses decimal text with separators into a [`Decimal`].
    fn parse_decimal_with_comma(&self, data: &str) -> (r: Result<Decimal, ParseError>)
        ensures
            match decimal_text_val(comma_core(data@)) {
                Some(p) => if -(i64::MAX as int) - 1 <= p.0 <= i64::MAX as int && p.1 <= u32::MAX
                    as nat {
                    r matches Ok(d) && d.mantissa as int == p.0 && d.scale as nat == p.1
                } else {
                    r matches Err(ParseError::ConversionError(t)) && t@ == comma_core(data@)
                },
                None => r matches Err(ParseError::ConversionError(t)) && t@ == comma_core(data@),
            },
    {
        parse_decimal_with_comma(data)
    }
}

/// A parsing strategy: validates and decodes one unit of fetched content
/// into the strategy's record family.
pub trait ParseStrategy: Conversion + Sized {
    type Error;

    type Input;

    type Output;

    /// The full relation between one input and the parse outcome.
    spec fn parse_post(&self, input: Self::Input, r: Result<Self::Output, Self::Error>) -> bool;

    /// Parses one unit of content.
    fn parse(&self, payload: Self::Input) -> (r: Result<Self::Output, Self::Error>)
        ensures
            self.parse_post(payload, r),
    ;
}

/// Binds one strategy to content handed to it.
#[derive(Debug)]
pub struct Parser<T: ParseStrategy> {
    strategy: T,
}

impl<T: ParseStrategy> Parser<T> {
    /// The strategy this parser drives.
    pub closed spec fn strategy_spec(&self) -> T {
        self.strategy
    }

    /// Wraps a strategy.
    pub fn new(strategy: T) -> (r: Self)
        ensures
            r.strategy_spec() == strategy,
    {
        Self { strategy }
    }

    /// Hands the payload to the bound strategy.
    pub fn parse(&self, payload: T::Input) -> (r: Result<T::Output, T::Error>)
        ensures
            self.strategy_spec().parse_post(payload, r),
    {
        self.strategy.parse(payload)
    }
}

} // verus!
