//! Which pin assignments are sound.

use vstd::prelude::*;

use crate::models::GpioConfig;
use crate::store::StoreError;
use crate::text::decimal_text;

verus! {

/// The pins that a configuration may assign, by name, in the order in which
/// they are checked.
pub open spec fn pin_slots(cfg: GpioConfig) -> Seq<(Seq<char>, Option<u8>)> {
    seq![
        ("rfid_rst_gpio"@, cfg.rfid_rst_gpio),
        ("spdt1_a"@, cfg.spdt1_a),
        ("spdt1_b"@, cfg.spdt1_b),
        ("spdt2_a"@, cfg.spdt2_a),
        ("spdt2_b"@, cfg.spdt2_b),
        ("spdt3_a"@, cfg.spdt3_a),
        ("spdt3_b"@, cfg.spdt3_b),
        ("rotary_a"@, cfg.rotary_a),
        ("rotary_b"@, cfg.rotary_b),
        ("rotary_btn"@, cfg.rotary_btn),
        ("cap_touch"@, cfg.cap_touch),
        ("push_btn"@, cfg.push_btn),
    ]
}

/// The pin at `i` is not on the header.
pub open spec fn off_header(slots: Seq<(Seq<char>, Option<u8>)>, i: int) -> bool {
    slots[i].1 matches Some(p) && p > 27
}

/// The places `i` and `j` are assigned the same pin.
pub open spec fn same_pin(slots: Seq<(Seq<char>, Option<u8>)>, i: int, j: int) -> bool {
    slots[i].1 is Some && slots[i].1 == slots[j].1
}

/// A configuration is sound: every pin is on the header, bus and chip select
/// are 0 or 1, and no pin is assigned twice.
pub open spec fn gpio_sound(cfg: GpioConfig) -> bool {
    let slots = pin_slots(cfg);
    &&& forall|i: int| 0 <= i < slots.len() ==> !#[trigger] off_header(slots, i)
    &&& cfg.rfid_spi_bus matches Some(bus) ==> bus <= 1
    &&& cfg.rfid_spi_cs matches Some(cs) ==> cs <= 1
    &&& forall|i: int, j: int| 0 <= i < j < slots.len() ==> !#[trigger] same_pin(slots, i, j)
}

/// The first place, from `from` on, whose pin is not on the header.
pub open spec fn first_off_header(slots: Seq<(Seq<char>, Option<u8>)>, from: int) -> Option<int>
    decreases slots.len() - from,
{
    if from >= slots.len() {
        None
    } else if off_header(slots, from) {
        Some(from)
    } else {
        first_off_header(slots, from + 1)
    }
}

/// The last place below `below` that has the pin of place `j`.
pub open spec fn last_use_below(
    slots: Seq<(Seq<char>, Option<u8>)>,
    below: int,
    j: int,
) -> Option<int>
    decreases below,
{
    if below <= 0 {
        None
    } else if same_pin(slots, below - 1, j) {
        Some(below - 1)
    } else {
        last_use_below(slots, below - 1, j)
    }
}

/// The first place, from `from` on, whose pin was assigned before, with the
/// place where it was.
pub open spec fn first_clash(slots: Seq<(Seq<char>, Option<u8>)>, from: int) -> Option<(int, int)>
    decreases slots.len() - from,
{
    if from >= slots.len() {
        None
    } else {
        match last_use_below(slots, from, from) {
            Some(prev) => Some((prev, from)),
            None => first_clash(slots, from + 1),
        }
    }
}

/// What is wrong with a configuration, as the caller is told: the first fault
/// in the order pins, bus, chip select, clashes.
pub open spec fn gpio_fault(cfg: GpioConfig) -> Option<Seq<char>> {
    let slots = pin_slots(cfg);
    match first_off_header(slots, 0) {
        Some(i) => Some(
            slots[i].0 + " must be a BCM GPIO number 0-27 (got "@ + crate::text::decimal(
                slots[i].1->0 as nat,
            ) + ")"@,
        ),
        None => if cfg.rfid_spi_bus is Some && cfg.rfid_spi_bus->0 > 1 {
            Some("rfid_spi_bus must be 0 or 1 (typical Raspberry Pi uses 0)"@)
        } else if cfg.rfid_spi_cs is Some && cfg.rfid_spi_cs->0 > 1 {
            Some("rfid_spi_cs must be 0 (CE0) or 1 (CE1)"@)
        } else {
            match first_clash(slots, 0) {
                Some((i, j)) => Some(
                    "GPIO "@ + crate::text::decimal(slots[j].1->0 as nat)
                        + " is assigned more than once ("@ + slots[i].0 + " and "@ + slots[j].0
                        + ")"@,
                ),
                None => None,
            }
        },
    }
}

pub(crate) proof fn lemma_first_off_header(slots: Seq<(Seq<char>, Option<u8>)>, from: int)
    requires
        0 <= from <= slots.len(),
    ensures
        match first_off_header(slots, from) {
            Some(i) => from <= i < slots.len() && off_header(slots, i),
            None => forall|i: int| from <= i < slots.len() ==> !#[trigger] off_header(slots, i),
        },
    decreases slots.len() - from,
{
    if from < slots.len() {
        lemma_first_off_header(slots, from + 1);
    }
}

proof fn lemma_last_use_below(slots: Seq<(Seq<char>, Option<u8>)>, below: int, j: int)
    ensures
        match last_use_below(slots, below, j) {
            Some(i) => 0 <= i < below && same_pin(slots, i, j),
            None => forall|i: int| 0 <= i < below ==> !#[trigger] same_pin(slots, i, j),
        },
    decreases below,
{
    if below > 0 {
        lemma_last_use_below(slots, below - 1, j);
    }
}

/// No place before the first one off the header is off the header.
pub(crate) proof fn lemma_first_off_header_is_first(
    slots: Seq<(Seq<char>, Option<u8>)>,
    from: int,
)
    requires
        0 <= from <= slots.len(),
    ensures
        first_off_header(slots, from) matches Some(i) ==> forall|k: int|
            from <= k < i ==> !#[trigger] off_header(slots, k),
    decreases slots.len() - from,
{
    if from < slots.len() {
        lemma_first_off_header_is_first(slots, from + 1);
    }
}

/// A clash before which there is none is the first one.
pub(crate) proof fn lemma_first_clash_is_first(
    slots: Seq<(Seq<char>, Option<u8>)>,
    from: int,
    k: int,
    m: int,
)
    requires
        0 <= from <= m,
        0 <= k < m < slots.len(),
        same_pin(slots, k, m),
        forall|i: int, j: int| 0 <= i < j < m ==> !#[trigger] same_pin(slots, i, j),
    ensures
        first_clash(slots, from) == Some((k, m)),
    decreases m - from,
{
    lemma_last_use_below(slots, from, from);
    if from < m {
        match last_use_below(slots, from, from) {
            Some(i) => {
                assert(same_pin(slots, i, from));
            },
            None => {},
        }
        lemma_first_clash_is_first(slots, from + 1, k, m);
    } else {
        match last_use_below(slots, m, m) {
            Some(i) => {
                if i < k {
                    assert(same_pin(slots, i, k));
                } else if k < i {
                    assert(same_pin(slots, k, i));
                }
            },
            None => {},
        }
    }
}

pub(crate) proof fn lemma_first_clash(slots: Seq<(Seq<char>, Option<u8>)>, from: int)
    requires
        0 <= from <= slots.len(),
    ensures
        match first_clash(slots, from) {
            Some((i, j)) => 0 <= i < j < slots.len() && same_pin(slots, i, j),
            None => forall|i: int, j: int|
                from <= j < slots.len() && 0 <= i < j ==> !#[trigger] same_pin(slots, i, j),
        },
    decreases slots.len() - from,
{
    if from < slots.len() {
        lemma_last_use_below(slots, from, from);
        lemma_first_clash(slots, from + 1);
    }
}

/// A configuration has no fault exactly if it is sound.
pub proof fn lemma_gpio_fault_iff_unsound(cfg: GpioConfig)
    ensures
        gpio_fault(cfg) is None <==> gpio_sound(cfg),
{
    let slots = pin_slots(cfg);
    lemma_first_off_header(slots, 0);
    lemma_first_clash(slots, 0);
}

/// In a sound configuration the two pins of a switch, and of the rotary
/// encoder, differ.
pub proof fn lemma_sound_pairs_differ(cfg: GpioConfig)
    requires
        gpio_sound(cfg),
    ensures
        cfg.spdt1_a is Some ==> cfg.spdt1_a != cfg.spdt1_b,
        cfg.spdt2_a is Some ==> cfg.spdt2_a != cfg.spdt2_b,
        cfg.spdt3_a is Some ==> cfg.spdt3_a != cfg.spdt3_b,
        cfg.rotary_a is Some ==> cfg.rotary_a != cfg.rotary_b,
{
    let slots = pin_slots(cfg);
    assert(!same_pin(slots, 1, 2));
    assert(!same_pin(slots, 3, 4));
    assert(!same_pin(slots, 5, 6));
    assert(!same_pin(slots, 7, 8));
}

/// Slots by what they stand for.
spec fn slot_views(s: Seq<(&'static str, Option<u8>)>) -> Seq<(Seq<char>, Option<u8>)> {
    s.map_values(|t: (&'static str, Option<u8>)| (t.0@, t.1))
}

fn list_slots(cfg: &GpioConfig) -> (r: Vec<(&'static str, Option<u8>)>)
    ensures
        slot_views(r@) == pin_slots(*cfg),
{
    let r: Vec<(&'static str, Option<u8>)> = vec![
        ("rfid_rst_gpio", cfg.rfid_rst_gpio),
        ("spdt1_a", cfg.spdt1_a),
        ("spdt1_b", cfg.spdt1_b),
        ("spdt2_a", cfg.spdt2_a),
        ("spdt2_b", cfg.spdt2_b),
        ("spdt3_a", cfg.spdt3_a),
        ("spdt3_b", cfg.spdt3_b),
        ("rotary_a", cfg.rotary_a),
        ("rotary_b", cfg.rotary_b),
        ("rotary_btn", cfg.rotary_btn),
        ("cap_touch", cfg.cap_touch),
        ("push_btn", cfg.push_btn),
    ];
    assert(slot_views(r@) =~= pin_slots(*cfg));
    r
}

/// Refuses a pin that is not on the header.
fn validate_pin(name: &str, pin: Option<u8>) -> (r: Result<(), StoreError>)
    ensures
        match pin {
            Some(p) if p > 27 => r matches Err(e) && e@ == crate::store::bad_request(
                name@ + " must be a BCM GPIO number 0-27 (got "@ + crate::text::decimal(p as nat)
                    + ")"@,
            ),
            _ => r is Ok,
        },
{
    if let Some(p) = pin {
        if p > 27 {
            let mut message = name.to_owned();
            message.append(" must be a BCM GPIO number 0-27 (got ");
            message.append(decimal_text(p as u64).as_str());
            message.append(")");
            return Err(StoreError::bad_request(message.as_str()));
        }
    }
    Ok(())
}

/// Refuses a configuration that is not sound, and says what is wrong with it.
pub fn validate_gpio_config(cfg: &GpioConfig) -> (r: Result<(), StoreError>)
    ensures
        r is Ok <==> gpio_sound(*cfg),
        match gpio_fault(*cfg) {
            Some(message) => r matches Err(e) && e@ == crate::store::bad_request(message),
            None => r is Ok,
        },
{
    let slots = list_slots(cfg);
    let ghost views = pin_slots(*cfg);
    proof {
        lemma_gpio_fault_iff_unsound(*cfg);
    }

    let mut i: usize = 0;
    while i < slots.len()
        invariant
            slot_views(slots@) == views,
            views == pin_slots(*cfg),
            i <= slots@.len(),
            first_off_header(views, 0) == first_off_header(views, i as int),
            gpio_fault(*cfg) is None <==> gpio_sound(*cfg),
        decreases slots@.len() - i,
    {
        let (name, pin) = slots[i];
        assert(views[i as int] == (name@, pin));
        validate_pin(name, pin)?;
        i += 1;
    }

    if let Some(bus) = cfg.rfid_spi_bus {
        if bus > 1 {
            return Err(
                StoreError::bad_request("rfid_spi_bus must be 0 or 1 (typical Raspberry Pi uses 0)"),
            );
        }
    }
    if let Some(cs) = cfg.rfid_spi_cs {
        if cs > 1 {
            return Err(StoreError::bad_request("rfid_spi_cs must be 0 (CE0) or 1 (CE1)"));
        }
    }

    let mut j: usize = 0;
    while j < slots.len()
        invariant
            slot_views(slots@) == views,
            views == pin_slots(*cfg),
            j <= slots@.len(),
            first_off_header(views, 0) is None,
            !(cfg.rfid_spi_bus is Some && cfg.rfid_spi_bus->0 > 1),
            !(cfg.rfid_spi_cs is Some && cfg.rfid_spi_cs->0 > 1),
            first_clash(views, 0) == first_clash(views, j as int),
            gpio_fault(*cfg) is None <==> gpio_sound(*cfg),
        decreases slots@.len() - j,
    {
        let (name, pin) = slots[j];
        assert(views[j as int] == (name@, pin));
        if let Some(p) = pin {
            let mut k: usize = j;
            while k > 0
                invariant
                    slot_views(slots@) == views,
                    views == pin_slots(*cfg),
                    k <= j < slots@.len(),
                    views[j as int] == (name@, pin),
                    pin == Some(p),
                    first_off_header(views, 0) is None,
                    !(cfg.rfid_spi_bus is Some && cfg.rfid_spi_bus->0 > 1),
                    !(cfg.rfid_spi_cs is Some && cfg.rfid_spi_cs->0 > 1),
                    first_clash(views, 0) == first_clash(views, j as int),
                    last_use_below(views, j as int, j as int) == last_use_below(
                        views,
                        k as int,
                        j as int,
                    ),
                    gpio_fault(*cfg) is None <==> gpio_sound(*cfg),
                decreases k,
            {
                let (prev, used) = slots[k - 1];
                assert(views[k - 1] == (prev@, used));
                if let Some(q) = used {
                    if p == q {
                        let mut message = "GPIO ".to_owned();
                        message.append(decimal_text(p as u64).as_str());
                        message.append(" is assigned more than once (");
                        message.append(prev);
                        message.append(" and ");
                        message.append(name);
                        message.append(")");
                        return Err(StoreError::bad_request(message.as_str()));
                    }
                }
                k -= 1;
            }
        } else {
            proof {
                lemma_last_use_below(views, j as int, j as int);
            }
        }
        j += 1;
    }
    Ok(())
}

} // verus!
