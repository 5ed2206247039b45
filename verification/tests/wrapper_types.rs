use untrusted_value_taint_checker::untrusted_value::FromTrustedVariant;
use untrusted_value_taint_checker::untrusted_value::IntoUntrustedVariant;
use untrusted_value_taint_checker::untrusted_value::MaybeUntrusted;
use untrusted_value_taint_checker::untrusted_value::SanitizeValue;
use untrusted_value_taint_checker::untrusted_value::SanitizeWith;
use untrusted_value_taint_checker::untrusted_value::UntrustedValue;

#[derive(Debug, Clone, PartialEq)]
struct Port(i64);

impl SanitizeValue<u16> for Port {
    type Error = String;

    fn sanitize_value(self) -> Result<u16, String> {
        u16::try_from(self.0).map_err(|_| format!("{} is no port", self.0))
    }
}

struct Config {
    port: i64,
}

struct ConfigUntrusted {
    port: UntrustedValue<i64>,
}

impl IntoUntrustedVariant<ConfigUntrusted> for Config {
    fn to_untrusted_variant(self) -> ConfigUntrusted {
        ConfigUntrusted { port: UntrustedValue::wrap(self.port) }
    }
}

fn positive(value: i32) -> Result<u32, String> {
    if value > 0 {
        Ok(value as u32)
    } else {
        Err(format!("{} is not positive", value))
    }
}

#[test]
fn wrap_and_use_give_the_value_back() {
    assert_eq!(UntrustedValue::wrap(7).use_untrusted_value(), 7);
    assert_eq!(UntrustedValue::from("x").use_untrusted_value(), "x");
    assert_eq!(
        UntrustedValue::from(41).use_untrusted_value(),
        UntrustedValue::wrap(41).use_untrusted_value()
    );
    let wrapped: UntrustedValue<u8> = 3.into();
    assert_eq!(wrapped.use_untrusted_value(), 3);
}

#[test]
fn sanitize_with_returns_what_the_sanitizer_returns() {
    assert_eq!(UntrustedValue::wrap(5).sanitize_with(positive), Ok(5));
    assert_eq!(UntrustedValue::wrap(-5).sanitize_with(positive), Err("-5 is not positive".to_string()));
    let through_trait: Result<u32, String> = SanitizeWith::sanitize_with(UntrustedValue::wrap(5), positive);
    assert_eq!(through_trait, Ok(5));
    let offset = 10;
    assert_eq!(UntrustedValue::wrap(1).sanitize_with(|v: i32| Ok::<i32, ()>(v + offset)), Ok(11));
}

#[test]
fn sanitize_value_goes_through_the_wrapped_value() {
    assert_eq!(UntrustedValue::wrap(Port(80)).sanitize_value(), Ok(80));
    assert_eq!(UntrustedValue::wrap(Port(-1)).sanitize_value(), Err("-1 is no port".to_string()));
}

#[test]
fn clone_of_an_untrusted_value_holds_a_clone() {
    let value = UntrustedValue::wrap(Port(1));
    let copy = value.clone();
    assert_eq!(copy.use_untrusted_value(), Port(1));
    assert_eq!(value.use_untrusted_value(), Port(1));
    let plain = UntrustedValue::wrap(4u8);
    let copied = plain;
    assert_eq!(plain.use_untrusted_value() + copied.use_untrusted_value(), 8);
}

#[test]
fn maybe_untrusted_knows_what_it_is() {
    let untrusted: MaybeUntrusted<i32> = MaybeUntrusted::wrap(1, true);
    let trusted: MaybeUntrusted<i32> = MaybeUntrusted::wrap(2, false);
    assert!(untrusted.is_untrusted());
    assert!(!untrusted.is_ok());
    assert!(!trusted.is_untrusted());
    assert!(trusted.is_ok());
    assert_eq!(untrusted.use_untrusted_value(), 1);
    assert_eq!(trusted.use_untrusted_value(), 2);
    assert!(MaybeUntrusted::<i32, u32>::wrap_untrusted(-1).is_untrusted());
    assert!(MaybeUntrusted::<i32, u32>::wrap_ok(1).is_ok());
    let converted: MaybeUntrusted<i32, u32> = UntrustedValue::wrap(3).into();
    assert!(converted.is_untrusted());
    assert!(matches!(MaybeUntrusted::<i32, u32>::wrap_ok(9), MaybeUntrusted::Trusted(9)));
}

#[test]
fn maybe_untrusted_sanitizes_only_what_is_untrusted() {
    assert_eq!(MaybeUntrusted::<i32, u32>::wrap_untrusted(4).sanitize_with(positive), Ok(4));
    assert_eq!(
        MaybeUntrusted::<i32, u32>::wrap_untrusted(-4).sanitize_with(positive),
        Err("-4 is not positive".to_string())
    );
    assert_eq!(MaybeUntrusted::<i32, u32>::wrap_ok(0).sanitize_with(positive), Ok(0));
    let through_trait: Result<u32, String> =
        SanitizeWith::sanitize_with(MaybeUntrusted::<i32, u32>::wrap_ok(0), positive);
    assert_eq!(through_trait, Ok(0));
}

#[derive(Debug, Clone, PartialEq)]
struct Even(i64);

impl SanitizeValue<Even> for Even {
    type Error = ();

    fn sanitize_value(self) -> Result<Even, ()> {
        if self.0 % 2 == 0 {
            Ok(self)
        } else {
            Err(())
        }
    }
}

#[test]
fn maybe_untrusted_sanitize_value_keeps_a_trusted_value() {
    assert_eq!(MaybeUntrusted::<Even>::wrap(Even(3), false).sanitize_value(), Ok(Even(3)));
    assert_eq!(MaybeUntrusted::<Even>::wrap(Even(3), true).sanitize_value(), Err(()));
    assert_eq!(MaybeUntrusted::<Even>::wrap(Even(4), true).sanitize_value(), Ok(Even(4)));
    let copy = MaybeUntrusted::<Even>::wrap(Even(4), true).clone();
    assert!(copy.is_untrusted());
}

#[test]
fn untrusted_variant_goes_both_ways() {
    let untrusted = Config { port: 8080 }.to_untrusted_variant();
    assert_eq!(untrusted.port.use_untrusted_value(), 8080);
    let untrusted = ConfigUntrusted::from_untrusted_variant(Config { port: 1 });
    assert_eq!(untrusted.port.use_untrusted_value(), 1);
}
