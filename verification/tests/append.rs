use abao::AbaoVec;
use abao::OomError;

fn buffer(capacity: usize) -> Vec<Option<usize>> {
    vec![None; capacity]
}

#[test]
fn scoped_insert() {
    let buf: Vec<Option<usize>> = buffer(512);
    let buf_len: usize = buf.len();
    let mut v = AbaoVec::new(buf);

    let values = (0..buf_len).collect::<Vec<usize>>();
    let chunks = values.as_slice().chunks(8).map(Vec::from);

    for chunk in chunks {
        for i in chunk {
            v.push(i).unwrap();
        }
    }

    for i in values {
        // assert all (unique) elements are included
        assert!(v.as_slice().iter().any(|x| **x == i));
    }
}

#[test]
fn capacity_scenario() {
    let mut v = AbaoVec::new(buffer(4));

    assert_eq!(v.push(0), Ok(0));
    assert_eq!(v.push(1), Ok(1));
    assert_eq!(v.push(2), Ok(2));
    assert_eq!(v.push(3), Ok(3));
    assert_eq!(v.push(4), Err(OomError));

    let view: Vec<usize> = v.as_slice().iter().map(|x| **x).collect();
    assert_eq!(view, vec![0, 1, 2, 3]);
    assert_eq!(v.get(4), None);
}

#[test]
fn len_is_monotonic() {
    let mut v = AbaoVec::new(buffer(3));
    let mut last: usize = v.len();
    for i in 0..6 {
        let _ = v.push(i);
        let now: usize = v.len();
        assert!(now >= last);
        last = now;
    }
    assert_eq!(v.len(), 3);
}

#[test]
fn committed_prefix_is_stable() {
    let mut v = AbaoVec::new(buffer(8));
    v.push(10).unwrap();
    v.push(20).unwrap();
    assert_eq!(v.get(0), Some(&10));
    assert_eq!(v.get(1), Some(&20));

    v.push(30).unwrap();
    v.push(40).unwrap();
    // earlier indices still return the values placed at them
    assert_eq!(v.get(0), Some(&10));
    assert_eq!(v.get(1), Some(&20));
    assert_eq!(v.get(2), Some(&30));
    assert_eq!(v.get(3), Some(&40));
}

#[test]
fn view_has_no_gaps() {
    let mut v = AbaoVec::new(buffer(5));
    assert_eq!(v.as_slice().len(), 0);
    v.push(7).unwrap();
    v.push(8).unwrap();
    v.push(9).unwrap();

    let view = v.as_slice();
    assert_eq!(view.len(), v.len());
    for (i, x) in view.iter().enumerate() {
        assert_eq!(v.get(i), Some(*x));
    }
    assert_eq!(*view[0], 7);
    assert_eq!(*view[1], 8);
    assert_eq!(*view[2], 9);
}

#[test]
fn distinct_values_each_exactly_once() {
    let n: usize = 16;
    let mut v = AbaoVec::new(buffer(n));
    for i in 0..n {
        v.push(i * 3).unwrap();
    }
    let view = v.as_slice();
    assert_eq!(view.len(), n);
    for i in 0..n {
        let occurrences: usize = view.iter().filter(|x| ***x == i * 3).count();
        assert_eq!(occurrences, 1);
    }
}

#[test]
fn exhaustion_is_permanent() {
    let mut v = AbaoVec::new(buffer(2));
    assert_eq!(v.push(1), Ok(0));
    assert_eq!(v.push(2), Ok(1));
    assert_eq!(v.push(3), Err(OomError));
    assert_eq!(v.push(4), Err(OomError));
    assert_eq!(v.push(5), Err(OomError));
    assert_eq!(v.len(), 2);
}

#[test]
fn zero_capacity_rejects_all() {
    let mut v: AbaoVec<usize> = AbaoVec::new(Vec::new());
    assert_eq!(v.len(), 0);
    assert_eq!(v.push(1), Err(OomError));
    assert_eq!(v.get(0), None);
    assert_eq!(v.as_slice().len(), 0);
}

#[test]
fn empty_vector_reads_absent() {
    let v: AbaoVec<usize> = AbaoVec::new(buffer(4));
    assert_eq!(v.len(), 0);
    assert_eq!(v.get(0), None);
    assert_eq!(v.get(3), None);
    assert_eq!(v.as_slice().len(), 0);
}

#[test]
fn get_unchecked_reads_committed() {
    let mut v = AbaoVec::new(buffer(3));
    v.push(5).unwrap();
    v.push(6).unwrap();
    assert_eq!(*v.get_unchecked(0), 5);
    assert_eq!(*v.get_unchecked(1), 6);
}
