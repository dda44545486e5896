use bili_downloader::batch::{season_episode_ids, Batch};
use bili_downloader::item::{FetchError, ItemError, MuxError};
use bili_downloader::manifest::Track;
use bili_downloader::naming::{Episode, SeasonInfo};

#[test]
fn failed_episode_does_not_stop_season() {
    let season = SeasonInfo {
        episodes: Some(vec![
            Episode { ep_id: Some(11), share_copy: Some("E1".to_string()) },
            Episode { ep_id: Some(12), share_copy: Some("E2".to_string()) },
            Episode { ep_id: Some(13), share_copy: Some("E3".to_string()) },
        ]),
    };
    let ids = season_episode_ids(&season);
    assert_eq!(ids, vec![Some(11), Some(12), Some(13)]);
    let mut batch = Batch::new(ids);
    let mut seen = Vec::new();
    while let Some(ep) = batch.next_episode() {
        let ep = ep.unwrap();
        seen.push(ep);
        let result = if ep == 12 {
            Err(ItemError::Fetch(Track::Video, FetchError::Network))
        } else {
            Ok(format!("E{}", ep - 10))
        };
        batch.record(result);
    }
    assert_eq!(seen, vec![11, 12, 13]);
    assert!(batch.is_complete());
    assert!(!batch.is_stopped());
    assert_eq!(batch.succeeded_names(), vec!["E1".to_string(), "E3".to_string()]);
    assert_eq!(batch.failures(), vec![(Some(12), ItemError::Fetch(Track::Video, FetchError::Network))]);
    assert_eq!(batch.outcomes.len(), 3);
    assert_eq!(batch.outcomes[1].ep_id, Some(12));
}

#[test]
fn missing_muxer_stops_season() {
    let mut batch = Batch::new(vec![Some(1), Some(2), Some(3)]);
    assert_eq!(batch.next_episode(), Some(Some(1)));
    batch.record(Ok("E1".to_string()));
    assert_eq!(batch.next_episode(), Some(Some(2)));
    batch.record(Err(ItemError::Mux(MuxError::ProcessSpawn)));
    assert!(batch.is_stopped());
    assert_eq!(batch.next_episode(), None);
    assert!(!batch.is_complete());
    assert_eq!(batch.failures(), vec![(Some(2), ItemError::Mux(MuxError::ProcessSpawn))]);
}

#[test]
fn failed_mux_does_not_stop_season() {
    let mut batch = Batch::new(vec![Some(1), Some(2)]);
    batch.record(Err(ItemError::Mux(MuxError::ProcessFailed(Some(1)))));
    assert_eq!(batch.next_episode(), Some(Some(2)));
}

#[test]
fn season_ids_keep_missing_ids() {
    let season = SeasonInfo {
        episodes: Some(vec![Episode { ep_id: None, share_copy: None }, Episode { ep_id: Some(7), share_copy: None }]),
    };
    assert_eq!(season_episode_ids(&season), vec![None, Some(7)]);
    assert!(season_episode_ids(&SeasonInfo { episodes: None }).is_empty());
    let mut batch = Batch::new(season_episode_ids(&season));
    assert_eq!(batch.next_episode(), Some(None));
    batch.record(Err(ItemError::NoEpisodeId));
    assert_eq!(batch.next_episode(), Some(Some(7)));
}

#[test]
fn empty_batch_is_complete() {
    let batch = Batch::new(vec![]);
    assert!(batch.is_complete());
    assert_eq!(batch.next_episode(), None);
    assert!(batch.succeeded_names().is_empty());
    assert!(batch.failures().is_empty());
}
