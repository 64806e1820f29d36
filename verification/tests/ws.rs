use std::collections::VecDeque;

use drama::ws::{enqueue, has_room, intake, settle, sweep, Intake, JobPoll, JobPoller, Settled, WebsocketJob, WS_QUEUE_SIZE};
use drama::Error;

#[test]
fn queue_holds_at_most_its_size() {
    let mut queue: VecDeque<u32> = VecDeque::new();
    let mut admitted = 0;
    while has_room(&queue) {
        let room_left = enqueue(&mut queue, admitted);
        admitted += 1;
        assert_eq!(room_left, (admitted as usize) < WS_QUEUE_SIZE);
    }
    assert_eq!(queue.len(), 128);
    assert_eq!(WS_QUEUE_SIZE, 128);
}

#[test]
fn finished_job_is_replaced_by_the_front() {
    let mut queue: VecDeque<char> = VecDeque::from(vec!['a', 'b', 'c', 'd']);
    let s = settle::<char, String>(&mut queue, 2, JobPoll::Ready(Ok(Some("reply".to_string()))));
    assert_eq!(s, Settled::Finished { next: 2, job: 'c', response: Some("reply".to_string()) });
    assert_eq!(queue, VecDeque::from(vec!['b', 'a', 'd']));
    let s = settle::<char, String>(&mut queue, 0, JobPoll::Ready(Ok(None)));
    assert_eq!(s, Settled::Finished { next: 0, job: 'b', response: None });
    assert_eq!(queue, VecDeque::from(vec!['a', 'd']));
}

#[test]
fn pending_jobs_stay_and_failed_jobs_leave() {
    let mut queue: VecDeque<char> = VecDeque::from(vec!['a', 'b', 'c']);
    assert_eq!(settle::<char, String>(&mut queue, 1, JobPoll::Pending), Settled::Next(2));
    assert_eq!(queue, VecDeque::from(vec!['a', 'b', 'c']));
    assert_eq!(
        settle::<char, String>(&mut queue, 1, JobPoll::Ready(Err(Error::ActorDisconnected))),
        Settled::Failed { next: 1, job: 'b', error: Error::ActorDisconnected }
    );
    assert_eq!(queue, VecDeque::from(vec!['a', 'c']));
}

/// Jobs are numbers: multiples of three fail, other even ones are done with
/// themselves as response (zero with none), odd ones stay pending.
struct Parity {
    looked: Vec<u32>,
}

impl JobPoller<u32, u32> for Parity {
    fn poll_job(&mut self, job: &mut u32) -> JobPoll<Result<Option<u32>, Error>> {
        self.looked.push(*job);
        if *job % 2 == 1 {
            JobPoll::Pending
        } else if *job % 3 == 0 && *job != 0 {
            JobPoll::Ready(Err(Error::RelayDisconnected))
        } else if *job == 0 {
            JobPoll::Ready(Ok(None))
        } else {
            JobPoll::Ready(Ok(Some(*job)))
        }
    }
}

#[test]
fn sweep_keeps_only_pending_jobs() {
    let mut queue: VecDeque<u32> = (0..10).collect();
    let mut poller = Parity { looked: Vec::new() };
    let swept = sweep(&mut queue, &mut poller);
    let mut left: Vec<u32> = queue.into_iter().collect();
    left.sort();
    let mut responses = swept.responses.clone();
    responses.sort();
    assert_eq!(left, vec![1, 3, 5, 7, 9]);
    assert_eq!(responses, vec![2, 4, 8]);
    assert_eq!(swept.finished, 4);
    assert_eq!(swept.failures, vec![Error::RelayDisconnected]);
    // Every job is looked at exactly once.
    poller.looked.sort();
    assert_eq!(poller.looked, (0..10).collect::<Vec<u32>>());
}

#[test]
fn job_life() {
    let mut job: WebsocketJob<String, usize> = WebsocketJob::new("msg".to_string());
    assert!(job.handling_mut().is_none());
    let handling = job.handling_for(|m| m.len());
    assert_eq!(*handling, 3);
    *handling += 1;
    let handling = job.handling_for(|_| 100);
    assert_eq!(*handling, 4);
    assert_eq!(job.handling_mut().copied(), Some(4));
}

#[test]
fn intake_fills_the_queue_up_to_its_size() {
    let mut queue: VecDeque<WebsocketJob<u32, ()>> = VecDeque::new();
    assert_eq!(intake::<u32, String, ()>(&mut queue, Some(Err("bad".to_string()))), Intake::Continue);
    assert_eq!(queue.len(), 0);
    assert_eq!(intake::<u32, String, ()>(&mut queue, None), Intake::Stop);
    let mut n = 0;
    while intake::<u32, String, ()>(&mut queue, Some(Ok(n))) == Intake::Continue {
        n += 1;
    }
    assert_eq!(queue.len(), WS_QUEUE_SIZE);
    assert_eq!(n as usize, WS_QUEUE_SIZE - 1);
}
