use portfolio::valuation::{effective_start_date, elapsed_seconds};
use portfolio::{HoldingPeriod, Portfolio, Symbol};
use rand::rngs::StdRng;
use rand::{Rng, SeedableRng};

fn price(symbol: Symbol, date: u32) -> f32 {
    let mut by_date = StdRng::seed_from_u64(date as u64);
    let mut by_symbol = StdRng::seed_from_u64(symbol.ordinal());
    by_date.gen::<f32>() / by_symbol.gen::<f32>()
}

fn three_holdings() -> Portfolio {
    let mut p = Portfolio::new(000);
    match p.add_stock(Symbol::A, 100, 12345) {
        Ok(_) => {}
        Err(e) => panic!("{}", e.message()),
    };

    match p.add_stock(Symbol::C, 200, 23455) {
        Ok(_) => {}
        Err(e) => panic!("{}", e.message()),
    };

    match p.add_stock(Symbol::G, 300, 34512) {
        Ok(_) => {}
        Err(e) => panic!("{}", e.message()),
    };
    p
}

#[test]
fn test_profit() {
    let p = three_holdings();

    let periods = p.holding_periods(11111, 22222).unwrap();
    assert_eq!(
        periods,
        vec![
            HoldingPeriod { symbol: Symbol::A, quantity: 100, start_date: 12345, end_date: 22222 },
            HoldingPeriod { symbol: Symbol::C, quantity: 200, start_date: 23455, end_date: 22222 },
            HoldingPeriod { symbol: Symbol::G, quantity: 300, start_date: 34512, end_date: 22222 },
        ]
    );
    assert_eq!(elapsed_seconds(11111, 22222), Some(11111));

    let mut total: f32 = 0.0;
    for period in periods.iter() {
        let first = price(period.symbol, period.start_date);
        let last = price(period.symbol, period.end_date);
        total = total + (last - first) * (period.quantity as f32);
    }
    let expected = 0.0
        + (price(Symbol::A, 22222) - price(Symbol::A, 12345)) * 100.0
        + (price(Symbol::C, 22222) - price(Symbol::C, 23455)) * 200.0
        + (price(Symbol::G, 22222) - price(Symbol::G, 34512)) * 300.0;
    assert_eq!(total, expected);
    println!("{:?}", Some(total));
}

#[test]
fn a_range_that_ends_before_it_starts_has_no_answer() {
    let p = three_holdings();
    assert_eq!(p.holding_periods(22222, 11111), None);
    assert_eq!(p.holding_periods(1, 0), None);
    assert_eq!(Portfolio::new(0).holding_periods(u32::MAX, 0), None);
    assert_eq!(elapsed_seconds(22222, 11111), None);
    assert_eq!(elapsed_seconds(1, 0), None);
}

#[test]
fn a_range_of_one_instant_is_answered() {
    let p = three_holdings();
    assert_eq!(elapsed_seconds(22222, 22222), Some(0));
    let periods = p.holding_periods(40000, 40000).unwrap();
    assert_eq!(periods.len(), 3);
    for period in periods.iter() {
        assert_eq!(period.start_date, 40000);
        assert_eq!(period.end_date, 40000);
    }
}

#[test]
fn a_late_purchase_is_priced_from_its_purchase() {
    let mut p = Portfolio::new(7);
    assert_eq!(p.add_stock(Symbol::E, 50, 15000), Ok(()));
    assert_eq!(
        p.holding_periods(10000, 20000),
        Some(vec![HoldingPeriod {
            symbol: Symbol::E,
            quantity: 50,
            start_date: 15000,
            end_date: 20000
        }])
    );
    let periods = p.holding_periods(10000, 20000).unwrap();
    let contribution = (price(Symbol::E, periods[0].end_date)
        - price(Symbol::E, periods[0].start_date))
        * (periods[0].quantity as f32);
    assert_eq!(contribution, (price(Symbol::E, 20000) - price(Symbol::E, 15000)) * 50.0);
}

#[test]
fn an_early_purchase_is_priced_from_the_start_of_the_range() {
    let mut p = Portfolio::new(7);
    assert_eq!(p.add_stock(Symbol::E, 50, 5000), Ok(()));
    assert_eq!(
        p.holding_periods(10000, 20000),
        Some(vec![HoldingPeriod {
            symbol: Symbol::E,
            quantity: 50,
            start_date: 10000,
            end_date: 20000
        }])
    );
}

#[test]
fn periods_come_by_symbol_whatever_the_order_of_adding() {
    let mut p = Portfolio::new(0);
    assert_eq!(p.add_stock(Symbol::J, 1, 10), Ok(()));
    assert_eq!(p.add_stock(Symbol::B, 2, 20), Ok(()));
    assert_eq!(p.add_stock(Symbol::F, 3, 30), Ok(()));
    assert_eq!(p.modify_stock(Symbol::B, 4, 40), Ok(()));
    assert_eq!(
        p.holding_periods(25, 100),
        Some(vec![
            HoldingPeriod { symbol: Symbol::B, quantity: 4, start_date: 40, end_date: 100 },
            HoldingPeriod { symbol: Symbol::F, quantity: 3, start_date: 30, end_date: 100 },
            HoldingPeriod { symbol: Symbol::J, quantity: 1, start_date: 25, end_date: 100 },
        ])
    );
}

#[test]
fn effective_start_is_the_later_date() {
    assert_eq!(effective_start_date(11111, 12345), 12345);
    assert_eq!(effective_start_date(12345, 11111), 12345);
    assert_eq!(effective_start_date(7, 7), 7);
    assert_eq!(effective_start_date(0, u32::MAX), u32::MAX);
    assert_eq!(effective_start_date(u32::MAX, 0), u32::MAX);
}

#[test]
fn elapsed_seconds_is_the_difference() {
    assert_eq!(elapsed_seconds(11111, 22222), Some(11111));
    assert_eq!(elapsed_seconds(0, 86400), Some(86400));
    assert_eq!(elapsed_seconds(0, u32::MAX), Some(u32::MAX));
}
