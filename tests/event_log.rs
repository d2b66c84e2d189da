use auction_sniper::auction::ItemBid;
use auction_sniper::event::{Event, UiEvent};
use auction_sniper::event_log::{InMemoryLog, LogEvent, ReadWait, WithOffset};
use auction_sniper::persistence::{Backend, Connection, Error};

type Result<T> = std::result::Result<T, Error>;

fn sample_event() -> Event {
    Event::Ui(UiEvent::MaxBidSet(ItemBid {
        item: "test".to_owned(),
        price: 0,
    }))
}

#[test]
fn event_logs_sanity_check() -> Result<()> {
    let mut conn = Connection::new(Backend::InMemory);
    let mut event_log = InMemoryLog::new();

    let start_offset = event_log.get_start_offset();

    // a zero timeout never waits
    assert_eq!(event_log.wait_plan(start_offset, Some(0)), ReadWait::Now);
    assert_eq!(
        event_log.read(start_offset, 0)?,
        WithOffset {
            offset: start_offset,
            data: vec![]
        }
    );

    assert_eq!(
        event_log.read(start_offset, 1)?,
        WithOffset {
            offset: start_offset,
            data: vec![]
        }
    );

    let inserted_offset = event_log.write_tr(&conn.start_transaction(), &[sample_event()])?;

    assert_eq!(event_log.wait_plan(inserted_offset, Some(0)), ReadWait::Now);
    assert_eq!(
        event_log.read(inserted_offset, 1)?,
        WithOffset {
            offset: inserted_offset,
            data: vec![]
        }
    );

    assert_eq!(
        event_log.read(event_log.get_start_offset(), 1)?,
        WithOffset {
            offset: inserted_offset,
            data: vec![LogEvent {
                offset: event_log.get_start_offset(),
                details: sample_event()
            }]
        }
    );

    Ok(())
}
