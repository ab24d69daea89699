use vstd::prelude::*;

verus! {

/// What the round trip of the health check came back with.
#[derive(Debug, Copy, Clone, PartialEq, Eq, Structural)]
pub enum HealthProbe {
    /// The query answered this value.
    Value(i32),
    /// No connection could be had, or the query failed.
    StoreFailed,
    /// The worker that ran the query did not finish.
    WorkerFailed,
}

/// The verdict of the health check.
#[derive(Debug, Copy, Clone, PartialEq, Eq, Structural)]
pub enum HealthReport {
    Healthy,
    UnexpectedValue,
    StoreError,
    InternalError,
}

/// The verdict a probe gives: healthy exactly when the query answered 1.
pub open spec fn spec_health(probe: HealthProbe) -> HealthReport {
    match probe {
        HealthProbe::Value(v) => if v == 1 {
            HealthReport::Healthy
        } else {
            HealthReport::UnexpectedValue
        },
        HealthProbe::StoreFailed => HealthReport::StoreError,
        HealthProbe::WorkerFailed => HealthReport::InternalError,
    }
}

/// Judges the round trip of the health check.
pub fn health_report(probe: HealthProbe) -> (r: HealthReport)
    ensures
        r == spec_health(probe),
{
    match probe {
        HealthProbe::Value(v) => if v == 1 {
            HealthReport::Healthy
        } else {
            HealthReport::UnexpectedValue
        },
        HealthProbe::StoreFailed => HealthReport::StoreError,
        HealthProbe::WorkerFailed => HealthReport::InternalError,
    }
}

impl HealthReport {
    /// Whether the store answered as expected.
    pub fn is_healthy(&self) -> (r: bool)
        ensures
            r == (*self == HealthReport::Healthy),
    {
        match self {
            HealthReport::Healthy => true,
            _ => false,
        }
    }

    /// The HTTP status of the report: 200 when healthy, 500 otherwise.
    pub fn status_code(&self) -> (r: u16)
        ensures
            r == (if *self == HealthReport::Healthy {
                200u16
            } else {
                500u16
            }),
    {
        match self {
            HealthReport::Healthy => 200,
            _ => 500,
        }
    }

    /// The message that goes with the status.
    pub open spec fn spec_message(self) -> Seq<char> {
        match self {
            HealthReport::Healthy => "ok"@,
            HealthReport::UnexpectedValue => "Error inesperado en la consulta de salud"@,
            HealthReport::StoreError => "Error de base de datos"@,
            HealthReport::InternalError => "Error interno del servidor"@,
        }
    }

    /// The message that goes with the status.
    pub fn message(&self) -> (r: &'static str)
        ensures
            r@ == self.spec_message(),
    {
        match self {
            HealthReport::Healthy => "ok",
            HealthReport::UnexpectedValue => "Error inesperado en la consulta de salud",
            HealthReport::StoreError => "Error de base de datos",
            HealthReport::InternalError => "Error interno del servidor",
        }
    }
}

} // verus!
