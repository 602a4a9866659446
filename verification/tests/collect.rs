use pacaptr::collect::Collector;

#[test]
fn outputs_are_shown_in_the_order_of_the_jobs() {
    let mut collector = Collector::new(3);
    assert!(!collector.is_complete());
    assert!(collector.ordered().is_empty());
    assert!(collector.put(2, b"third".to_vec()));
    assert!(collector.put(0, b"first".to_vec()));
    assert!(!collector.is_complete());
    assert_eq!(collector.ordered(), vec![b"first".to_vec(), b"third".to_vec()]);
    assert!(collector.put(1, b"second".to_vec()));
    assert!(collector.is_complete());
    assert_eq!(
        collector.ordered(),
        vec![b"first".to_vec(), b"second".to_vec(), b"third".to_vec()]
    );
}

#[test]
fn the_order_of_arrival_does_not_show() {
    let outputs = [b"a".to_vec(), b"b".to_vec(), b"c".to_vec(), b"d".to_vec()];
    let arrivals: [[usize; 4]; 4] = [[0, 1, 2, 3], [3, 2, 1, 0], [2, 0, 3, 1], [1, 3, 0, 2]];
    for arrival in arrivals {
        let mut collector = Collector::new(4);
        for index in arrival {
            assert!(collector.put(index, outputs[index].clone()));
        }
        assert!(collector.is_complete());
        assert_eq!(collector.ordered(), outputs.to_vec());
    }
}

#[test]
fn an_output_without_a_job_is_not_kept() {
    let mut collector = Collector::new(2);
    assert!(!collector.put(2, b"x".to_vec()));
    assert!(!collector.put(usize::MAX, b"x".to_vec()));
    assert!(collector.ordered().is_empty());
    let mut none = Collector::new(0);
    assert!(none.is_complete());
    assert!(!none.put(0, b"x".to_vec()));
    assert!(none.ordered().is_empty());
}

#[test]
fn a_later_output_of_the_same_job_takes_the_place() {
    let mut collector = Collector::new(1);
    assert!(collector.put(0, b"old".to_vec()));
    assert!(collector.put(0, b"new".to_vec()));
    assert_eq!(collector.ordered(), vec![b"new".to_vec()]);
}
