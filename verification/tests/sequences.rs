//! What runs of operations do to the two fields.

use valuechange::ScoreReturn;
use valuechange::Valuechange;

fn flip_times(instance: &mut Valuechange, times: u32) {
    let mut done: u32 = 0;
    while done < times {
        instance.flip();
        done += 1;
    }
}

fn add_score_times(instance: &mut Valuechange, times: u64) {
    let mut done: u64 = 0;
    while done < times {
        let _ = instance.add_score();
        done += 1;
    }
}

#[test]
fn two_flips_restore_the_flag() {
    let mut raised = Valuechange::new(true);
    raised.flip();
    raised.flip();
    assert_eq!(raised.get(), true);

    let mut cleared = Valuechange::new(false);
    cleared.flip();
    cleared.flip();
    assert_eq!(cleared.get(), false);
}

#[test]
fn an_even_number_of_flips_restores_the_flag() {
    let mut instance = Valuechange::new(true);
    flip_times(&mut instance, 0);
    assert_eq!(instance.get(), true);
    flip_times(&mut instance, 4);
    assert_eq!(instance.get(), true);
    flip_times(&mut instance, 100);
    assert_eq!(instance.get(), true);
}

#[test]
fn an_odd_number_of_flips_inverts_the_flag() {
    let mut one = Valuechange::new(false);
    flip_times(&mut one, 1);
    assert_eq!(one.get(), true);

    let mut three = Valuechange::new(true);
    flip_times(&mut three, 3);
    assert_eq!(three.get(), false);

    let mut many = Valuechange::new(false);
    flip_times(&mut many, 1001);
    assert_eq!(many.get(), true);
}

#[test]
fn the_counter_goes_up_by_the_number_of_increments() {
    let mut fresh = Valuechange::new(false);
    add_score_times(&mut fresh, 0);
    assert_eq!(fresh.get_score(), 0);
    add_score_times(&mut fresh, 1);
    assert_eq!(fresh.get_score(), 1);
    add_score_times(&mut fresh, 1000);
    assert_eq!(fresh.get_score(), 1001);

    let mut restored = Valuechange::restore(true, 41);
    add_score_times(&mut restored, 59);
    assert_eq!(restored.get_score(), 100);
}

#[test]
fn the_counter_never_decreases() {
    let mut instance = Valuechange::new(false);
    let mut last: u64 = instance.get_score();
    let mut step: u32 = 0;
    while step < 200 {
        let expected: u64 = if step % 4 == 0 {
            instance.flip();
            last
        } else if step % 4 == 1 {
            let _ = instance.add_score();
            last + 1
        } else if step % 4 == 2 {
            let _ = instance.get();
            last
        } else {
            let _ = instance.get_score();
            last
        };
        let now: u64 = instance.get_score();
        assert!(now >= last);
        assert_eq!(now, expected);
        last = now;
        step += 1;
    }
    assert_eq!(last, 50);
}

#[test]
fn every_increment_notifies_with_the_new_counter() {
    let mut instance = Valuechange::restore(false, 10);
    let mut expected: u64 = 10;
    let mut round: u32 = 0;
    while round < 25 {
        let event: ScoreReturn = instance.add_score();
        expected += 1;
        assert_eq!(event.score, expected);
        assert_eq!(event.score, instance.get_score());
        round += 1;
    }
    assert_eq!(instance.get_score(), 35);
}

#[test]
fn flips_leave_the_counter_alone() {
    let mut instance = Valuechange::restore(false, 7);
    let mut round: u32 = 0;
    while round < 9 {
        instance.flip();
        assert_eq!(instance.get_score(), 7);
        round += 1;
    }
    assert_eq!(instance.get(), true);
}

#[test]
fn increments_leave_the_flag_alone() {
    let mut raised = Valuechange::new(true);
    let mut cleared = Valuechange::new(false);
    let mut round: u32 = 0;
    while round < 9 {
        let _ = raised.add_score();
        let _ = cleared.add_score();
        assert_eq!(raised.get(), true);
        assert_eq!(cleared.get(), false);
        round += 1;
    }
    assert_eq!(raised.get_score(), 9);
    assert_eq!(cleared.get_score(), 9);
}

#[test]
fn interleaved_flips_and_increments_do_not_disturb_each_other() {
    let mut instance = Valuechange::new(false);
    instance.flip();
    let _ = instance.add_score();
    instance.flip();
    let _ = instance.add_score();
    instance.flip();
    assert_eq!(instance.get(), true);
    assert_eq!(instance.get_score(), 2);
}
