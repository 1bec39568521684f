//! Client-side engine for user proving sessions: function whitelists as
//! Merkle trees, per-contract and per-user state roots, a read-only preview
//! of contract calls, programmable-key policies, an execution queue, and the
//! session that folds proven steps into one end cap.
pub mod hash;
pub mod text;
pub mod error;
pub mod types;
pub mod cft;
pub mod sorted;
pub mod state;
pub mod traits;
pub mod sdkey;
pub mod queue;
pub mod json;
pub mod preview;
pub mod ups;
pub mod mock;

pub use error::{PsyGuardError, PsyResult};
pub use types::{
    BalanceChange, CfcFingerprint, CfcId, CfcInputs, CfcProof, CftInclusionProof, CftRoot,
    CftVerificationResult, CheckpointRef, ConstraintCheckResult, ContractId, CstateDelta,
    CstateDeltaProof, DebtDeltaProof, EndCapProof, GutaPath, ReadOnlyPreviewResult,
    SdkeyConstraintCheck, SignatureProof, SlotModification, SubmitReceipt, TwoFaCheckResult,
    TxEndCtx, UconDeltaProof, UpsAccumulatedInfo, UpsHeader, UpsQueueItem, UpsQueueItemStatus,
    UpsStepProof, UserId, UserLeafCtx,
};
pub use cft::CftVerifier;
pub use mock::{MockNetworkState, MockProver};
pub use preview::ReadOnlyPreview;
pub use queue::UpsQueue;
pub use sdkey::{SdkeyPolicyBuilder, SdkeyPolicyValidator};
pub use state::{Cstate, ParthTransfer, Ucon};
pub use traits::{NetworkState, Prover, SdkeyPolicy, Submitter};
pub use ups::UpsSession;
