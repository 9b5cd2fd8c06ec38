use idalib::entry::{entries, EntryIterator, EntryRecord};
use idalib::BADADDR;

fn listing() -> Vec<EntryRecord> {
    vec![
        EntryRecord { ordinal: 1, address: 0x10004706 },
        EntryRecord { ordinal: 2, address: BADADDR },
        EntryRecord { ordinal: 3, address: 0x10004b18 },
        EntryRecord { ordinal: 4, address: BADADDR },
        EntryRecord { ordinal: 5, address: BADADDR },
        EntryRecord { ordinal: 6, address: 0x10004c2b },
        EntryRecord { ordinal: 7, address: BADADDR },
    ]
}

#[test]
fn iterator_skips_missing_entries() {
    let rows = listing();
    let mut it = entries(&rows);
    let e = it.next().unwrap();
    assert_eq!((e.ordinal(), e.address()), (1, 0x10004706));
    let e = it.next().unwrap();
    assert_eq!((e.ordinal(), e.address()), (3, 0x10004b18));
    let e = it.next().unwrap();
    assert_eq!((e.ordinal(), e.address()), (6, 0x10004c2b));
    assert!(it.next().is_none());
    assert!(it.next().is_none());
}

#[test]
fn size_hint_counts_unvisited_listings() {
    let rows = listing();
    let mut it = EntryIterator::new(&rows);
    assert_eq!(it.size_hint(), (0, Some(7)));
    it.next();
    assert_eq!(it.size_hint(), (0, Some(6)));
    it.next();
    assert_eq!(it.size_hint(), (0, Some(4)));
    it.next();
    assert_eq!(it.size_hint(), (0, Some(1)));
    assert!(it.next().is_none());
    assert_eq!(it.size_hint(), (0, Some(0)));
}

#[test]
fn size_hint_bounds_what_remains() {
    let rows = listing();
    let mut it = entries(&rows);
    loop {
        let upper = it.size_hint().1.unwrap();
        let first_unvisited = rows.len() - upper;
        let still_to_come = rows[first_unvisited..]
            .iter()
            .filter(|r| r.address != BADADDR)
            .count();
        assert!(still_to_come <= upper);
        match it.next() {
            Some(e) => assert_ne!(e.address(), BADADDR),
            None => {
                assert_eq!(still_to_come, 0);
                break;
            }
        }
    }
}

#[test]
fn empty_listing_yields_nothing() {
    let rows: Vec<EntryRecord> = Vec::new();
    let mut it = entries(&rows);
    assert_eq!(it.size_hint(), (0, Some(0)));
    assert!(it.next().is_none());
}

#[test]
fn all_missing_listing_yields_nothing() {
    let rows = vec![
        EntryRecord { ordinal: 1, address: BADADDR },
        EntryRecord { ordinal: 2, address: BADADDR },
    ];
    let mut it = entries(&rows);
    assert!(it.next().is_none());
    assert_eq!(it.size_hint(), (0, Some(0)));
}

#[test]
fn module_function_and_constructor_agree() {
    let rows = listing();
    let mut a = entries(&rows);
    let mut b = EntryIterator::new(&rows);
    let mut count_a = 0;
    while a.next().is_some() {
        count_a += 1;
    }
    let mut count_b = 0;
    while b.next().is_some() {
        count_b += 1;
    }
    assert_eq!(count_a, count_b);
    assert_eq!(count_a, 3);
}
