use std::collections::HashMap;

use client_pipeline::client::ClientLayer;
use client_pipeline::message::{Request, Response};
use client_pipeline::service::{Action, Step};
use client_pipeline::telemetry::Telemetry;

/// What the log holds for one call.
#[derive(Default, Debug, PartialEq, Eq)]
struct Tally {
    entries: usize,
    exits: usize,
    samples: usize,
    spans: usize,
}

struct Driver {
    log: Vec<Telemetry>,
    waiting: Vec<u64>,
    running: Vec<u64>,
    ended: Vec<u64>,
}

impl Driver {
    fn take(&mut self, call: u64, step: Step) {
        self.waiting.retain(|c| *c != call);
        self.running.retain(|c| *c != call);
        match step.action {
            Action::Send { .. } => self.running.push(call),
            Action::Wait => self.waiting.push(call),
            Action::Respond(_) | Action::Fail(_) | Action::Cancelled => self.ended.push(call),
            Action::Rejected => panic!("call {} was rejected", call),
        }
        self.log.extend(step.telemetry);
    }

    fn tallies(&self) -> HashMap<u64, Tally> {
        let mut tallies: HashMap<u64, Tally> = HashMap::new();
        for item in &self.log {
            match item {
                Telemetry::InFlight { call, delta: 1, .. } => {
                    tallies.entry(*call).or_default().entries += 1
                }
                Telemetry::InFlight { call, delta: -1, .. } => {
                    tallies.entry(*call).or_default().exits += 1
                }
                Telemetry::InFlight { delta, .. } => panic!("gauge changed by {}", delta),
                Telemetry::Duration { call, .. } => tallies.entry(*call).or_default().samples += 1,
                Telemetry::Span { call, span } => {
                    assert!(span.is_closed());
                    tallies.entry(*call).or_default().spans += 1
                }
            }
        }
        tallies
    }

    fn gauge(&self) -> i64 {
        self.log
            .iter()
            .map(|item| match item {
                Telemetry::InFlight { delta, .. } => *delta,
                _ => 0,
            })
            .sum()
    }
}

#[test]
fn every_call_is_accounted_for_whatever_happens() {
    let mut service = ClientLayer::new().with_category("soak");
    let mut driver = Driver { log: Vec::new(), waiting: Vec::new(), running: Vec::new(), ended: Vec::new() };
    let mut seed: u64 = 0x2545_f491_4f6c_dd1d;
    let mut next = move || {
        seed ^= seed << 13;
        seed ^= seed >> 7;
        seed ^= seed << 17;
        seed
    };
    let mut hops: HashMap<u64, usize> = HashMap::new();
    for now in 0..4_000u64 {
        let pick = next();
        match pick % 7 {
            0 | 1 => {
                let started = service.start(Request::new("POST", "http://example.com/a"), now);
                let call = started.call;
                driver.take(call, started.step);
            }
            2 if !driver.running.is_empty() => {
                let call = driver.running[(pick / 7) as usize % driver.running.len()];
                let step = service.on_response(call, Response::new(200), now);
                driver.take(call, step);
            }
            3 if !driver.running.is_empty() => {
                let call = driver.running[(pick / 7) as usize % driver.running.len()];
                let mut response = Response::new(307);
                response.headers.append("location", b"/again");
                let step = service.on_response(call, response, now);
                if matches!(step.action, Action::Send { .. }) {
                    *hops.entry(call).or_default() += 1;
                }
                driver.take(call, step);
            }
            4 if !driver.running.is_empty() => {
                let call = driver.running[(pick / 7) as usize % driver.running.len()];
                let step = service.on_error(call, "reset", now);
                driver.take(call, step);
            }
            5 if !driver.waiting.is_empty() || !driver.running.is_empty() => {
                let all: Vec<u64> =
                    driver.waiting.iter().chain(driver.running.iter()).copied().collect();
                let call = all[(pick / 7) as usize % all.len()];
                let step = service.cancel(call, now);
                driver.take(call, step);
            }
            _ => {
                if let Some(call) = driver.waiting.first().copied() {
                    let step = service.resume(call);
                    driver.take(call, step);
                }
            }
        }

        // at every instant
        assert!(driver.running.len() <= 10);
        assert_eq!(service.slots_in_use(), driver.running.len());
        let under_way = driver.waiting.len() + driver.running.len();
        assert_eq!(service.in_flight(), under_way);
        assert_eq!(driver.gauge(), under_way as i64);
        // a call waits only while every slot is taken, as far as it has asked
        if driver.running.len() < 10 {
            for call in driver.waiting.clone() {
                let step = service.resume(call);
                assert!(matches!(step.action, Action::Send { .. } | Action::Wait));
                driver.take(call, step);
            }
        }
    }
    assert!(driver.ended.len() > 500);
    assert!(!driver.log.is_empty());

    // the gauge goes down for a call with the attributes with which it went up
    let keyed = |attributes: &[client_pipeline::value::KeyValue]| -> Vec<String> {
        attributes.iter().map(|a| format!("{}={:?}", a.key, a.value)).collect()
    };
    let mut entries: HashMap<u64, Vec<String>> = HashMap::new();
    for item in &driver.log {
        match item {
            Telemetry::InFlight { call, delta: 1, attributes, .. } => {
                assert_eq!(attributes.len(), 3);
                assert!(entries.insert(*call, keyed(attributes)).is_none());
            }
            Telemetry::InFlight { call, attributes, .. } => {
                assert_eq!(entries[call], keyed(attributes), "call {}", call);
            }
            Telemetry::Duration { call, attributes, .. } => {
                assert_eq!(entries[call], keyed(&attributes[..3]), "call {}", call);
            }
            Telemetry::Span { .. } => {}
        }
    }

    let tallies = driver.tallies();
    for call in &driver.ended {
        let tally = &tallies[call];
        assert_eq!((tally.entries, tally.exits, tally.samples), (1, 1, 1), "call {}", call);
    }
    for call in driver.waiting.iter().chain(driver.running.iter()) {
        let tally = &tallies[call];
        assert_eq!(
            (tally.entries, tally.exits, tally.samples, tally.spans),
            (1, 0, 0, hops.get(call).copied().unwrap_or(0)),
            "call {}",
            call
        );
    }
    assert_eq!(tallies.len() as u64, service.calls_started());
    // every item carries the category
    for item in &driver.log {
        let pairs = match item {
            Telemetry::InFlight { attributes, .. } => attributes.as_slice(),
            Telemetry::Duration { attributes, .. } => attributes.as_slice(),
            Telemetry::Span { span, .. } => span.fields().as_slice(),
        };
        assert!(pairs.iter().any(|p| p.key == "mas.category"
            && matches!(&p.value, client_pipeline::value::Value::Str(s) if s == "soak")));
    }
}
