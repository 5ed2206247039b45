//! The wrapper types that mark values as untrusted, and the traits by which
//! such values are sanitized.

use vstd::prelude::*;

verus! {

/// A value that can be sanitized by itself.
pub trait SanitizeValue<Trusted>: Sized {
    /// What is returned where the value cannot be sanitized.
    type Error;

    /// The sanitized value, or an error where the value cannot be sanitized.
    fn sanitize_value(self) -> Result<Trusted, Self::Error>;
}

/// A value that can be sanitized by a sanitizer that is handed in.
pub trait SanitizeWith<Insecure, Trusted>: Sized {
    /// The untrusted value that is handed to the sanitizer, if there is one.
    spec fn tainted(self) -> Option<Insecure>;

    /// The trusted value that is returned as it is, if there is one.
    spec fn trusted(self) -> Option<Trusted>;

    /// What the sanitizer returns for the untrusted value; the trusted value
    /// where there is nothing to sanitize.
    fn sanitize_with<Sanitizer, Error>(self, sanitizer: Sanitizer) -> (r: Result<Trusted, Error>) where
        Sanitizer: FnOnce(Insecure) -> Result<Trusted, Error>,

        requires
            self.tainted() is Some ==> sanitizer.requires((self.tainted()->0,)),
        ensures
            self.tainted() is Some ==> sanitizer.ensures((self.tainted()->0,), r),
            self.tainted() is None && self.trusted() is Some ==> r == Ok::<Trusted, Error>(
                self.trusted()->0,
            ),
    ;
}

/// A conversion into a type that holds the same data as untrusted values. It
/// sanitizes nothing and leaves no part of the data untainted.
pub trait IntoUntrustedVariant<OtherInsecure>: Sized {
    fn to_untrusted_variant(self) -> OtherInsecure;
}

/// The reverse of [`IntoUntrustedVariant`], from the side of the target type.
pub trait FromTrustedVariant<OtherInsecure>: Sized {
    fn from_untrusted_variant(other: OtherInsecure) -> Self;
}

impl<Insecure, OtherInsecure> FromTrustedVariant<OtherInsecure> for Insecure where
    OtherInsecure: IntoUntrustedVariant<Insecure>,
 {
    /// What the other value makes of itself as its untrusted variant.
    fn from_untrusted_variant(other: OtherInsecure) -> (r: Self)
        ensures
            call_ensures(OtherInsecure::to_untrusted_variant, (other,), r),
    {
        other.to_untrusted_variant()
    }
}

/// A value that may be under the control of an attacker. It is tainted: it
/// can be taken out only by sanitizing it, or by saying so.
pub struct UntrustedValue<Insecure> {
    value: Insecure,
}

impl<Insecure: Clone> Clone for UntrustedValue<Insecure> {
    /// A clone of an untrusted value is as untrusted.
    fn clone(&self) -> (r: Self)
        ensures
            cloned(self@, r@),
    {
        UntrustedValue { value: self.value.clone() }
    }
}

impl<Insecure: Copy> Copy for UntrustedValue<Insecure> {

}

impl<Insecure> View for UntrustedValue<Insecure> {
    type V = Insecure;

    closed spec fn view(&self) -> Insecure {
        self.value
    }
}

impl<Insecure> UntrustedValue<Insecure> {
    /// The value as it is, unsanitized.
    pub fn use_untrusted_value(self) -> (r: Insecure)
        ensures
            r == self@,
    {
        self.value
    }

    /// Wraps a value as untrusted.
    pub fn wrap(value: Insecure) -> (r: Self)
        ensures
            r@ == value,
    {
        UntrustedValue { value }
    }

    /// What the sanitizer returns for the value.
    pub fn sanitize_with<Sanitizer, Trusted, Error>(self, sanitizer: Sanitizer) -> (r: Result<
        Trusted,
        Error,
    >) where Sanitizer: FnOnce(Insecure) -> Result<Trusted, Error>
        requires
            sanitizer.requires((self@,)),
        ensures
            sanitizer.ensures((self@,), r),
    {
        sanitizer(self.value)
    }
}

impl<Insecure, Trusted> SanitizeWith<Insecure, Trusted> for UntrustedValue<Insecure> {
    open spec fn tainted(self) -> Option<Insecure> {
        Some(self@)
    }

    open spec fn trusted(self) -> Option<Trusted> {
        None
    }

    fn sanitize_with<Sanitizer, Error>(self, sanitizer: Sanitizer) -> (r: Result<Trusted, Error>) where
        Sanitizer: FnOnce(Insecure) -> Result<Trusted, Error>,
     {
        sanitizer(self.value)
    }
}

impl<Insecure> From<Insecure> for UntrustedValue<Insecure> {
    /// Wraps a value as untrusted, as [`UntrustedValue::wrap`] does.
    fn from(value: Insecure) -> (r: Self)
        ensures
            r@ == value,
    {
        UntrustedValue::wrap(value)
    }
}

impl<Insecure> vstd::std_specs::convert::FromSpecImpl<Insecure> for UntrustedValue<Insecure> {
    open spec fn obeys_from_spec() -> bool {
        true
    }

    closed spec fn from_spec(value: Insecure) -> Self {
        UntrustedValue { value }
    }
}

impl<Sanitized, Insecure: SanitizeValue<Sanitized>> SanitizeValue<Sanitized> for UntrustedValue<
    Insecure,
> {
    type Error = Insecure::Error;

    /// What the wrapped value makes of itself.
    fn sanitize_value(self) -> (r: Result<Sanitized, Self::Error>)
        ensures
            call_ensures(Insecure::sanitize_value, (self@,), r),
    {
        self.value.sanitize_value()
    }
}

/// A value that is either trusted or untrusted.
pub enum MaybeUntrusted<Insecure, Trusted = Insecure> {
    /// A trusted value.
    Trusted(Trusted),
    /// An untrusted value.
    Untrusted(UntrustedValue<Insecure>),
}

impl<Insecure: Clone, Trusted: Clone> Clone for MaybeUntrusted<Insecure, Trusted> {
    /// A clone is trusted if and only if the value is.
    fn clone(&self) -> (r: Self)
        ensures
            match (*self, r) {
                (MaybeUntrusted::Trusted(a), MaybeUntrusted::Trusted(b)) => cloned(a, b),
                (MaybeUntrusted::Untrusted(a), MaybeUntrusted::Untrusted(b)) => cloned(a@, b@),
                _ => false,
            },
    {
        match self {
            MaybeUntrusted::Trusted(value) => MaybeUntrusted::Trusted(value.clone()),
            MaybeUntrusted::Untrusted(value) => MaybeUntrusted::Untrusted(value.clone()),
        }
    }
}

impl<Insecure: Copy, Trusted: Copy> Copy for MaybeUntrusted<Insecure, Trusted> {

}

impl<Insecure> MaybeUntrusted<Insecure, Insecure> {
    /// The value as it is, unsanitized where it is untrusted.
    pub fn use_untrusted_value(self) -> (r: Insecure)
        ensures
            r == match self {
                MaybeUntrusted::Trusted(value) => value,
                MaybeUntrusted::Untrusted(value) => value@,
            },
    {
        match self {
            MaybeUntrusted::Trusted(value) => value,
            MaybeUntrusted::Untrusted(value) => value.use_untrusted_value(),
        }
    }

    /// Wraps a value as untrusted or as trusted, as the flag says.
    pub fn wrap(value: Insecure, untrusted: bool) -> (r: Self)
        ensures
            untrusted ==> r is Untrusted && r->Untrusted_0@ == value,
            !untrusted ==> r == MaybeUntrusted::<Insecure, Insecure>::Trusted(value),
    {
        if untrusted {
            Self::wrap_untrusted(value)
        } else {
            Self::wrap_ok(value)
        }
    }
}

impl<Insecure, Trusted> MaybeUntrusted<Insecure, Trusted> {
    /// Whether the value is untrusted.
    pub fn is_untrusted(&self) -> (r: bool)
        ensures
            r == (self is Untrusted),
    {
        match self {
            MaybeUntrusted::Trusted(_) => false,
            MaybeUntrusted::Untrusted(_) => true,
        }
    }

    /// Whether the value is trusted.
    pub fn is_ok(&self) -> (r: bool)
        ensures
            r == (self is Trusted),
    {
        !self.is_untrusted()
    }

    /// Wraps a value as untrusted.
    pub fn wrap_untrusted(value: Insecure) -> (r: Self)
        ensures
            r is Untrusted,
            r->Untrusted_0@ == value,
    {
        MaybeUntrusted::Untrusted(UntrustedValue::wrap(value))
    }

    /// Wraps a value as trusted.
    pub fn wrap_ok(value: Trusted) -> (r: Self)
        ensures
            r == MaybeUntrusted::<Insecure, Trusted>::Trusted(value),
    {
        MaybeUntrusted::Trusted(value)
    }

    /// The trusted value as it is; for an untrusted value what the sanitizer
    /// returns for it.
    pub fn sanitize_with<Sanitizer, Error>(self, sanitizer: Sanitizer) -> (r: Result<Trusted, Error>) where
        Sanitizer: FnOnce(Insecure) -> Result<Trusted, Error>,

        requires
            self is Untrusted ==> sanitizer.requires((self->Untrusted_0@,)),
        ensures
            match self {
                MaybeUntrusted::Trusted(value) => r == Ok::<Trusted, Error>(value),
                MaybeUntrusted::Untrusted(value) => sanitizer.ensures((value@,), r),
            },
    {
        match self {
            MaybeUntrusted::Trusted(value) => Ok(value),
            MaybeUntrusted::Untrusted(value) => value.sanitize_with(sanitizer),
        }
    }
}

impl<Insecure, Trusted> SanitizeWith<Insecure, Trusted> for MaybeUntrusted<Insecure, Trusted> {
    open spec fn tainted(self) -> Option<Insecure> {
        match self {
            MaybeUntrusted::Trusted(value) => None,
            MaybeUntrusted::Untrusted(value) => Some(value@),
        }
    }

    open spec fn trusted(self) -> Option<Trusted> {
        match self {
            MaybeUntrusted::Trusted(value) => Some(value),
            MaybeUntrusted::Untrusted(value) => None,
        }
    }

    fn sanitize_with<Sanitizer, Error>(self, sanitizer: Sanitizer) -> (r: Result<Trusted, Error>) where
        Sanitizer: FnOnce(Insecure) -> Result<Trusted, Error>,
     {
        match self {
            MaybeUntrusted::Trusted(value) => Ok(value),
            MaybeUntrusted::Untrusted(value) => value.sanitize_with(sanitizer),
        }
    }
}

impl<Insecure, Trusted> From<UntrustedValue<Insecure>> for MaybeUntrusted<Insecure, Trusted> {
    fn from(value: UntrustedValue<Insecure>) -> (r: Self) {
        MaybeUntrusted::Untrusted(value)
    }
}

impl<Insecure, Trusted> vstd::std_specs::convert::FromSpecImpl<UntrustedValue<Insecure>> for MaybeUntrusted<Insecure, Trusted> {
    open spec fn obeys_from_spec() -> bool {
        true
    }

    open spec fn from_spec(value: UntrustedValue<Insecure>) -> Self {
        MaybeUntrusted::Untrusted(value)
    }
}

impl<Insecure: SanitizeValue<Insecure>> SanitizeValue<Insecure> for MaybeUntrusted<
    Insecure,
    Insecure,
> {
    type Error = Insecure::Error;

    /// The trusted value as it is; for an untrusted value what it makes of
    /// itself.
    fn sanitize_value(self) -> (r: Result<Insecure, Self::Error>)
        ensures
            match self {
                MaybeUntrusted::Trusted(value) => r == Ok::<Insecure, Insecure::Error>(value),
                MaybeUntrusted::Untrusted(value) => call_ensures(
                    Insecure::sanitize_value,
                    (value@,),
                    r,
                ),
            },
    {
        match self {
            MaybeUntrusted::Trusted(value) => Ok(value),
            MaybeUntrusted::Untrusted(value) => value.sanitize_value(),
        }
    }
}

} // verus!
