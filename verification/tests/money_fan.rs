use baseunits_rs::money::Allotment;
use baseunits_rs::money::Allotments;
use baseunits_rs::money::Money;
use baseunits_rs::money::MoneyError;
use baseunits_rs::money::MoneyFan;
use bigdecimal::BigDecimal;
use iso_4217::CurrencyCode;
use std::collections::hash_map::DefaultHasher;
use std::hash::{Hash, Hasher};
use std::str::FromStr;

fn usd(text: &str) -> Money {
    Money::new(BigDecimal::from_str(text).unwrap(), CurrencyCode::USD).unwrap()
}

fn yen(amount: i64) -> Money {
    Money::from((amount, CurrencyCode::JPY))
}

fn share(entity: &'static str, amount: &str) -> Allotment<&'static str> {
    Allotment::new(entity, usd(amount))
}

fn fan(shares: Vec<Allotment<&'static str>>) -> MoneyFan<&'static str> {
    MoneyFan::new(Allotments::new(shares))
}

fn hash_of<T: Hash>(value: &T) -> u64 {
    let mut hasher = DefaultHasher::new();
    value.hash(&mut hasher);
    hasher.finish()
}

#[test]
fn test01_roommate_example() {
    let a = Allotment::new("Joe", usd("65.00"));
    let _electric_bill = MoneyFan::new(Allotments::new(vec![a]));

    let _rent = MoneyFan::new(Allotments::new(vec![
        Allotment::new("Mary", Money::from((650, CurrencyCode::USD))),
        Allotment::new("Jill", Money::from((650, CurrencyCode::USD))),
        Allotment::new("Joe", Money::from((650, CurrencyCode::USD))),
    ]));

    let total = _electric_bill.add(_rent).unwrap().into_vec();
    assert_eq!(
        total,
        vec![
            share("Joe", "715.00"),
            share("Mary", "650.00"),
            share("Jill", "650.00"),
        ]
    );
}

#[test]
fn allotment_negated_and_equal() {
    assert_eq!(share("Joe", "1.50").negated(), share("Joe", "-1.50"));
    assert_eq!(-share("Joe", "1.50"), share("Joe", "-1.50"));
    assert_eq!(share("Joe", "1.50"), share("Joe", "1.5"));
    assert_ne!(share("Joe", "1.50"), share("Jill", "1.50"));
    assert_ne!(share("Joe", "1.50"), share("Joe", "1.51"));
    assert_ne!(share("Joe", "1"), Allotment::new("Joe", yen(1)));
    assert_eq!(share("Joe", "1.50").clone(), share("Joe", "1.50"));
    assert_eq!(hash_of(&share("Joe", "1.50")), hash_of(&share("Joe", "1.5")));
}

#[test]
fn allotments_hold_nothing_twice() {
    let set = Allotments::new(vec![
        share("Joe", "1"),
        share("Jill", "2"),
        share("Joe", "1.00"),
        share("Joe", "3"),
    ]);
    assert_eq!(set.len(), 3);
    assert_eq!(set.get(0), &share("Joe", "1"));
    assert_eq!(set.get(1), &share("Jill", "2"));
    assert_eq!(set.get(2), &share("Joe", "3"));
    assert!(set.contains(&share("Jill", "2.00")));
    assert!(!set.contains(&share("Jill", "3")));
    assert_eq!(set.position(&"Joe"), Some(0));
    assert_eq!(set.position(&"Jill"), Some(1));
    assert_eq!(set.position(&"Mary"), None);
    let more = set.with(share("Jill", "2")).with(share("Mary", "2"));
    assert_eq!(more.len(), 4);
    assert_eq!(more.get(3), &share("Mary", "2"));
    assert!(Allotments::<&str>::empty().is_empty());
    assert!(!more.is_empty());
}

#[test]
fn allotments_combine_and_negate() {
    let a = Allotments::new(vec![share("Joe", "1"), share("Jill", "2")]);
    let b = Allotments::new(vec![share("Jill", "2"), share("Mary", "3")]);
    let both = a.combine(b).into_vec();
    assert_eq!(
        both,
        vec![share("Joe", "1"), share("Jill", "2"), share("Mary", "3")]
    );
    let negated = Allotments::new(vec![share("Joe", "1"), share("Jill", "-2")])
        .negated()
        .into_vec();
    assert_eq!(negated, vec![share("Joe", "-1"), share("Jill", "2")]);
    let added = Allotments::new(vec![share("Joe", "1")])
        .combine_vec(vec![share("Joe", "1"), share("Joe", "2")])
        .into_vec();
    assert_eq!(added, vec![share("Joe", "1"), share("Joe", "2")]);
}

#[test]
fn allotments_filter_and_find() {
    let set = Allotments::new(vec![
        share("Joe", "1"),
        share("Jill", "-2"),
        share("Mary", "3"),
    ]);
    let positive = set.clone().filter(|a| a.amount.is_positive()).into_vec();
    assert_eq!(positive, vec![share("Joe", "1"), share("Mary", "3")]);
    let none = set.clone().filter(|_| false);
    assert!(none.is_empty());
    assert_eq!(
        set.clone().find(|a| a.amount.is_negative()),
        Some(share("Jill", "-2"))
    );
    assert_eq!(set.clone().find(|a| a.entity == "Mary"), Some(share("Mary", "3")));
    assert_eq!(set.find(|a| a.amount.is_zero()), None);
}

#[test]
fn fan_allotment_of_an_entity() {
    let f = fan(vec![share("Joe", "1"), share("Jill", "2"), share("Joe", "3")]);
    assert_eq!(f.clone().allotment("Joe"), Some(share("Joe", "1")));
    assert_eq!(f.clone().allotment("Jill"), Some(share("Jill", "2")));
    assert_eq!(f.allotment("Mary"), None);
    assert!(MoneyFan::<&str>::empty().is_empty());
}

#[test]
fn fan_sum_adds_by_entity_and_drops_zero() {
    let a = fan(vec![share("Joe", "1"), share("Jill", "2"), share("Ann", "0")]);
    let b = fan(vec![share("Jill", "-2"), share("Mary", "3"), share("Joe", "0.50")]);
    let sum = a.add(b).unwrap().into_vec();
    assert_eq!(sum, vec![share("Joe", "1.50"), share("Mary", "3")]);
}

#[test]
fn fan_sum_counts_the_first_allotment_of_an_entity() {
    let a = fan(vec![share("Joe", "1"), share("Joe", "5")]);
    let b = fan(vec![share("Joe", "10"), share("Joe", "20"), share("Mary", "1"), share("Mary", "2")]);
    let sum = a.add(b).unwrap().into_vec();
    assert_eq!(sum, vec![share("Joe", "11"), share("Mary", "1")]);
}

#[test]
fn fan_sum_with_the_empty_fan() {
    let a = fan(vec![share("Joe", "1"), share("Jill", "0")]);
    let sum = a.clone().add(MoneyFan::empty()).unwrap().into_vec();
    assert_eq!(sum, vec![share("Joe", "1")]);
    let sum = MoneyFan::empty().add(a).unwrap().into_vec();
    assert_eq!(sum, vec![share("Joe", "1")]);
}

#[test]
fn fan_sum_fails_across_currencies() {
    let a = fan(vec![share("Joe", "1")]);
    let b = MoneyFan::new(Allotments::new(vec![Allotment::new("Joe", yen(1))]));
    assert_eq!(
        a.clone().add(b.clone()).err(),
        Some(MoneyError::NotSameCurrencyError)
    );
    assert_eq!(a.subtract(b).err(), Some(MoneyError::NotSameCurrencyError));
    let c = fan(vec![share("Jill", "1")]);
    let d = MoneyFan::new(Allotments::new(vec![Allotment::new("Joe", yen(1))]));
    let mixed = c.add(d).unwrap().into_vec();
    assert_eq!(mixed, vec![share("Jill", "1"), Allotment::new("Joe", yen(1))]);
}

#[test]
fn fan_difference_and_negation() {
    let a = fan(vec![share("Joe", "3"), share("Jill", "2")]);
    let b = fan(vec![share("Joe", "1"), share("Jill", "2"), share("Mary", "4")]);
    let difference = a.clone().subtract(b).unwrap().into_vec();
    assert_eq!(difference, vec![share("Joe", "2"), share("Mary", "-4")]);
    assert_eq!(
        a.negated().into_vec(),
        vec![share("Joe", "-3"), share("Jill", "-2")]
    );
}
