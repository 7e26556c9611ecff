//! The configuration handed to the payment SDK when its elements session is
//! created, and the JSON text it travels as.
use vstd::prelude::*;
use crate::json::{is_plain, json_string_literal, lemma_escaped_plain, quoted};

verus! {

/// How the payment element lays out the payment methods it offers.
pub struct Layout {
    pub typ: String,
    pub default_collapsed: bool,
    pub radios: bool,
    pub spaced_accordion_items: bool,
}

impl Layout {
    pub fn new(typ: String, default_collapsed: bool, radios: bool, spaced_accordion_items: bool) -> (r: Self)
        ensures
            r.typ == typ,
            r.default_collapsed == default_collapsed,
            r.radios == radios,
            r.spaced_accordion_items == spaced_accordion_items,
    {
        Layout { typ, default_collapsed, radios, spaced_accordion_items }
    }
}

/// The visual theme of the payment element.
pub struct Appearance {
    pub theme: String,
}

impl Appearance {
    pub fn new(theme: String) -> (r: Self)
        ensures
            r.theme == theme,
    {
        Appearance { theme }
    }
}

/// The options of an elements session: what is paid, in which currency, how
/// the payment method is created, and how the element looks.
pub struct StripeOptions {
    pub mode: String,
    /// In minor units of `currency`.
    pub amount: u32,
    pub currency: String,
    pub payment_method_creation: String,
    pub layout: Layout,
    pub appearance: Appearance,
}

/// The decimal digit `d`.
pub open spec fn digit_char(d: nat) -> char {
    ((d + 48) as u32) as char
}

/// `n` in decimal, without leading zeros.
pub open spec fn decimal(n: nat) -> Seq<char>
    decreases n,
{
    if n < 10 {
        seq![digit_char(n)]
    } else {
        decimal(n / 10) + seq![digit_char(n % 10)]
    }
}

pub open spec fn bool_json(b: bool) -> Seq<char> {
    if b {
        "true"@
    } else {
        "false"@
    }
}

/// The JSON object of a layout; its discriminator goes under the key `type`.
pub open spec fn layout_json(l: Layout) -> Seq<char> {
    "{\"type\":"@ + quoted(l.typ@) + ",\"defaultCollapsed\":"@ + bool_json(l.default_collapsed)
        + ",\"radios\":"@ + bool_json(l.radios) + ",\"spacedAccordionItems\":"@ + bool_json(
        l.spaced_accordion_items,
    ) + "}"@
}

pub open spec fn appearance_json(a: Appearance) -> Seq<char> {
    "{\"theme\":"@ + quoted(a.theme@) + "}"@
}

/// The JSON object of the options: camelCase keys, in the order of the fields.
pub open spec fn options_json(o: StripeOptions) -> Seq<char> {
    "{\"mode\":"@ + quoted(o.mode@) + ",\"amount\":"@ + decimal(o.amount as nat) + ",\"currency\":"@
        + quoted(o.currency@) + ",\"paymentMethodCreation\":"@ + quoted(o.payment_method_creation@)
        + ",\"layout\":"@ + layout_json(o.layout) + ",\"appearance\":"@ + appearance_json(
        o.appearance,
    ) + "}"@
}

fn digit_text(d: u32) -> (r: &'static str)
    requires
        d < 10,
    ensures
        r@ == seq![digit_char(d as nat)],
{
    proof {
        reveal_strlit("0");
        reveal_strlit("1");
        reveal_strlit("2");
        reveal_strlit("3");
        reveal_strlit("4");
        reveal_strlit("5");
        reveal_strlit("6");
        reveal_strlit("7");
        reveal_strlit("8");
        reveal_strlit("9");
    }
    if d == 0 {
        "0"
    } else if d == 1 {
        "1"
    } else if d == 2 {
        "2"
    } else if d == 3 {
        "3"
    } else if d == 4 {
        "4"
    } else if d == 5 {
        "5"
    } else if d == 6 {
        "6"
    } else if d == 7 {
        "7"
    } else if d == 8 {
        "8"
    } else {
        "9"
    }
}

fn write_decimal(out: &mut String, n: u32)
    ensures
        final(out)@ == old(out)@ + decimal(n as nat),
    decreases n,
{
    if n >= 10 {
        write_decimal(out, n / 10);
    }
    out.append(digit_text(n % 10));
    assert(final(out)@ =~= old(out)@ + decimal(n as nat));
}

fn write_quoted(out: &mut String, s: &String)
    ensures
        final(out)@ == old(out)@ + quoted(s@),
{
    let q = json_string_literal(s.as_str()).unwrap();
    out.append(q.as_str());
}

fn write_bool(out: &mut String, b: bool)
    ensures
        final(out)@ == old(out)@ + bool_json(b),
{
    if b {
        out.append("true");
    } else {
        out.append("false");
    }
}

impl Layout {
    fn write_json(&self, out: &mut String)
        ensures
            final(out)@ == old(out)@ + layout_json(*self),
    {
        out.append("{\"type\":");
        write_quoted(out, &self.typ);
        out.append(",\"defaultCollapsed\":");
        write_bool(out, self.default_collapsed);
        out.append(",\"radios\":");
        write_bool(out, self.radios);
        out.append(",\"spacedAccordionItems\":");
        write_bool(out, self.spaced_accordion_items);
        out.append("}");
        assert(final(out)@ =~= old(out)@ + layout_json(*self));
    }
}

impl Appearance {
    fn write_json(&self, out: &mut String)
        ensures
            final(out)@ == old(out)@ + appearance_json(*self),
    {
        out.append("{\"theme\":");
        write_quoted(out, &self.theme);
        out.append("}");
        assert(final(out)@ =~= old(out)@ + appearance_json(*self));
    }
}

impl StripeOptions {
    pub fn new(
        mode: String,
        amount: u32,
        currency: String,
        payment_method_creation: String,
        layout: Layout,
        appearance: Appearance,
    ) -> (r: Self)
        ensures
            r.mode == mode,
            r.amount == amount,
            r.currency == currency,
            r.payment_method_creation == payment_method_creation,
            r.layout == layout,
            r.appearance == appearance,
    {
        StripeOptions { mode, amount, currency, payment_method_creation, layout, appearance }
    }

    /// The options as the JSON text that the SDK reads.
    pub fn to_json(&self) -> (r: String)
        ensures
            r@ == options_json(*self),
    {
        let mut out = String::new();
        out.append("{\"mode\":");
        write_quoted(&mut out, &self.mode);
        out.append(",\"amount\":");
        write_decimal(&mut out, self.amount);
        out.append(",\"currency\":");
        write_quoted(&mut out, &self.currency);
        out.append(",\"paymentMethodCreation\":");
        write_quoted(&mut out, &self.payment_method_creation);
        out.append(",\"layout\":");
        self.layout.write_json(&mut out);
        out.append(",\"appearance\":");
        self.appearance.write_json(&mut out);
        out.append("}");
        assert(out@ =~= options_json(*self));
        out
    }
}

/// The options of a payment of `price`: mode "payment" in Australian dollars,
/// payment methods created by hand, an accordion of spaced, expanded items
/// without radio buttons, in the flat theme.
pub open spec fn is_payment_options(o: StripeOptions, price: u32) -> bool {
    &&& o.mode@ == "payment"@
    &&& o.amount == price
    &&& o.currency@ == "aud"@
    &&& o.payment_method_creation@ == "manual"@
    &&& o.layout.typ@ == "accordion"@
    &&& !o.layout.default_collapsed
    &&& !o.layout.radios
    &&& o.layout.spaced_accordion_items
    &&& o.appearance.theme@ == "flat"@
}

/// The JSON text of every payment's options, but for its amount.
pub open spec fn payment_options_json(price: u32) -> Seq<char> {
    "{\"mode\":\"payment\",\"amount\":"@ + decimal(price as nat)
        + ",\"currency\":\"aud\",\"paymentMethodCreation\":\"manual\",\"layout\":{\"type\":\"accordion\",\"defaultCollapsed\":false,\"radios\":false,\"spacedAccordionItems\":true},\"appearance\":{\"theme\":\"flat\"}}"@
}

/// The options of a payment of `price`.
pub fn payment_options(price: u32) -> (r: StripeOptions)
    ensures
        is_payment_options(r, price),
{
    let layout = Layout::new(String::from_str("accordion"), false, false, true);
    let appearance = Appearance::new(String::from_str("flat"));
    StripeOptions::new(
        String::from_str("payment"),
        price,
        String::from_str("aud"),
        String::from_str("manual"),
        layout,
        appearance,
    )
}

/// The options of any payment serialise to the same fixed text, with the
/// price written in decimal as the amount and nothing else depending on it.
pub proof fn lemma_payment_options_json(o: StripeOptions, price: u32)
    requires
        is_payment_options(o, price),
    ensures
        options_json(o) == payment_options_json(price),
{
    reveal_strlit("payment");
    reveal_strlit("aud");
    reveal_strlit("manual");
    reveal_strlit("accordion");
    reveal_strlit("flat");
    reveal_strlit("true");
    reveal_strlit("false");
    reveal_strlit("{\"mode\":");
    reveal_strlit(",\"amount\":");
    reveal_strlit(",\"currency\":");
    reveal_strlit(",\"paymentMethodCreation\":");
    reveal_strlit(",\"layout\":");
    reveal_strlit(",\"appearance\":");
    reveal_strlit("{\"type\":");
    reveal_strlit(",\"defaultCollapsed\":");
    reveal_strlit(",\"radios\":");
    reveal_strlit(",\"spacedAccordionItems\":");
    reveal_strlit("{\"theme\":");
    reveal_strlit("}");
    reveal_strlit("{\"mode\":\"payment\",\"amount\":");
    reveal_strlit(
        ",\"currency\":\"aud\",\"paymentMethodCreation\":\"manual\",\"layout\":{\"type\":\"accordion\",\"defaultCollapsed\":false,\"radios\":false,\"spacedAccordionItems\":true},\"appearance\":{\"theme\":\"flat\"}}",
    );
    assert(is_plain(o.mode@));
    assert(is_plain(o.currency@));
    assert(is_plain(o.payment_method_creation@));
    assert(is_plain(o.layout.typ@));
    assert(is_plain(o.appearance.theme@));
    lemma_escaped_plain(o.mode@);
    lemma_escaped_plain(o.currency@);
    lemma_escaped_plain(o.payment_method_creation@);
    lemma_escaped_plain(o.layout.typ@);
    lemma_escaped_plain(o.appearance.theme@);
    assert(options_json(o) =~= payment_options_json(price));
}

} // verus!
