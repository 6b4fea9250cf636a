//! Service system for synchronous request/response communication.
//!
//! The server owns, per registered service name, a FIFO request queue
//! and the responses owed to callers. Each registration stands for
//! one dedicated executor; the driving loop around the library calls
//! `handle_next` for it. Requests and responses are statically typed
//! per server, so the run-time type recovery of a type-erased
//! transport — and its silent-drop gap on a mismatch — has no place
//! here.

use vstd::prelude::*;

use crate::error::RobotError;

verus! {

/// Service request ID, generated randomly at construction.
#[derive(Debug, Clone, Copy, PartialEq, Eq, Hash, Structural)]
pub struct ServiceRequestId(pub u128);

impl ServiceRequestId {
    /// Create a new random request ID.
    pub fn new() -> Self {
        ServiceRequestId(crate::ids::random_uuid_value())
    }
}

/// A request names its target service and carries a unique id.
pub trait ServiceRequest {
    fn service_name(&self) -> &str;

    fn request_id(&self) -> ServiceRequestId;
}

/// A response reports success plus an optional error message.
pub trait ServiceResponse {
    fn success(&self) -> bool;

    fn error_message(&self) -> Option<&str>;
}

/// A handler turns one request into one response. Service authors
/// implement it; `handle_spec` names the response the handler gives,
/// and `handle` delivers exactly that.
pub trait ServiceHandler<Req, Resp> {
    /// The response this handler gives to a request.
    spec fn handle_spec(&self, request: Req) -> Resp;

    fn handle(&self, request: Req) -> (r: Resp)
        ensures
            r == self.handle_spec(request),
    ;
}

/// A request waiting in a service's inbound queue.
#[derive(Debug)]
pub struct PendingRequest<Req> {
    pub ticket: u64,
    pub service: String,
    pub request: Req,
}

/// A response owed to the caller holding the ticket.
#[derive(Debug)]
pub struct ReadyResponse<Resp> {
    pub ticket: u64,
    pub response: Resp,
}

/// Service server holding the registered names, the pending requests,
/// and the responses not yet collected.
#[derive(Debug)]
pub struct ServiceServer<Req, Resp> {
    pub services: Vec<String>,
    pub requests: Vec<PendingRequest<Req>>,
    pub responses: Vec<ReadyResponse<Resp>>,
    pub next_ticket: u64,
}

/// Service client for making requests to one registered service.
#[derive(Debug)]
pub struct ServiceClient {
    pub service_name: String,
}

impl Clone for ServiceClient {
    fn clone(&self) -> (res: Self)
        ensures
            res == *self,
    {
        ServiceClient { service_name: self.service_name.clone() }
    }
}

/// `n + 1`, stopping at the top of the type's range.
pub open spec fn ticket_inc(n: u64) -> u64 {
    if n < u64::MAX {
        (n + 1) as u64
    } else {
        n
    }
}

impl<Req, Resp> ServiceServer<Req, Resp> {
    /// Whether a service with this name is registered.
    pub open spec fn has_service(&self, name: Seq<char>) -> bool {
        exists|i: int| 0 <= i < self.services@.len() && (#[trigger] self.services@[i])@ == name
    }

    /// Whether a response for this ticket is ready.
    pub open spec fn has_response(&self, ticket: u64) -> bool {
        exists|i: int| 0 <= i < self.responses@.len() && (#[trigger] self.responses@[i]).ticket == ticket
    }

    /// Create a new service server with nothing registered.
    pub fn new() -> (r: Self)
        ensures
            r.services@.len() == 0,
            r.requests@.len() == 0,
            r.responses@.len() == 0,
    {
        ServiceServer { services: Vec::new(), requests: Vec::new(), responses: Vec::new(), next_ticket: 0 }
    }

    /// Whether a service with this name is registered.
    pub fn service_exists(&self, service_name: &str) -> (r: bool)
        ensures
            r == self.has_service(service_name@),
    {
        let n = self.services.len();
        let mut i: usize = 0;
        while i < n
            invariant
                n == self.services@.len(),
                i <= n,
                forall|j: int| 0 <= j < i ==> (#[trigger] self.services@[j])@ != service_name@,
            decreases n - i,
        {
            if crate::messages::str_eq(self.services[i].as_str(), service_name) {
                return true;
            }
            i += 1;
        }
        false
    }

    /// Register a service under a name, creating its dedicated
    /// executor. Registering a name a second time leaves the first
    /// registration standing.
    pub fn register_service(&mut self, service_name: &str) -> (r: Result<(), RobotError>)
        ensures
            r is Ok,
            final(self).requests == old(self).requests,
            final(self).responses == old(self).responses,
            final(self).next_ticket == old(self).next_ticket,
            final(self).has_service(service_name@),
            old(self).has_service(service_name@) ==> *final(self) == *old(self),
            !old(self).has_service(service_name@) ==> final(self).services@ == old(
                self,
            ).services@.push(final(self).services@.last()) && final(self).services@.last()@
                == service_name@,
    {
        if !self.service_exists(service_name) {
            let ghost n0 = self.services@.len();
            self.services.push(service_name.to_owned());
            proof {
                assert(self.services@[n0 as int]@ == service_name@);
            }
        }
        Ok(())
    }

    /// Create a client for a registered service; fails with "service
    /// not found" for a name nobody registered.
    pub fn create_client(&self, service_name: &str) -> (r: Result<ServiceClient, RobotError>)
        ensures
            self.has_service(service_name@) ==> (r matches Ok(c) && c.service_name@
                == service_name@),
            !self.has_service(service_name@) ==> (r matches Err(e) && e is Service
                && e.spec_message() == "service not found"@),
    {
        if self.service_exists(service_name) {
            Ok(ServiceClient { service_name: service_name.to_owned() })
        } else {
            Err(RobotError::Service(String::from_str("service not found")))
        }
    }

    /// List all registered services, in registration order.
    pub fn list_services(&self) -> (r: Vec<String>)
        ensures
            r@.len() == self.services@.len(),
            forall|i: int| 0 <= i < r@.len() ==> (#[trigger] r@[i])@ == self.services@[i]@,
    {
        let n = self.services.len();
        let mut r: Vec<String> = Vec::new();
        let mut i: usize = 0;
        while i < n
            invariant
                n == self.services@.len(),
                i <= n,
                r@.len() == i,
                forall|j: int| 0 <= j < i ==> (#[trigger] r@[j])@ == self.services@[j]@,
            decreases n - i,
        {
            r.push(self.services[i].clone());
            i += 1;
        }
        r
    }

    /// Pull the oldest pending request addressed to this service, for
    /// its executor. Returns the caller's ticket with the request.
    pub fn take_request(&mut self, service_name: &str) -> (r: Option<(u64, Req)>)
        ensures
            final(self).services == old(self).services,
            final(self).responses == old(self).responses,
            final(self).next_ticket == old(self).next_ticket,
            match r {
                Some(tr) => {
                    exists|i: int|
                        {
                            &&& 0 <= i < old(self).requests@.len()
                            &&& (#[trigger] old(self).requests@[i]).service@ == service_name@
                            &&& forall|j: int|
                                0 <= j < i ==> (#[trigger] old(self).requests@[j]).service@
                                    != service_name@
                            &&& tr.0 == old(self).requests@[i].ticket
                            &&& tr.1 == old(self).requests@[i].request
                            &&& final(self).requests@ == old(self).requests@.remove(i)
                        }
                },
                None => {
                    &&& final(self).requests == old(self).requests
                    &&& forall|j: int|
                        0 <= j < old(self).requests@.len() ==> (
                        #[trigger] old(self).requests@[j]).service@ != service_name@
                },
            },
    {
        let n = self.requests.len();
        let mut i: usize = 0;
        while i < n
            invariant
                n == self.requests@.len(),
                *self == *old(self),
                i <= n,
                forall|j: int| 0 <= j < i ==> (#[trigger] self.requests@[j]).service@ != service_name@,
            decreases n - i,
        {
            if crate::messages::str_eq(self.requests[i].service.as_str(), service_name) {
                let ghost pre = self.requests@;
                let pr = self.requests.remove(i);
                proof {
                    assert(pre[i as int].service@ == service_name@);
                    assert(pre == old(self).requests@);
                }
                return Some((pr.ticket, pr.request));
            }
            i += 1;
        }
        None
    }

    /// Deliver a response into the one-shot slot of the caller
    /// holding this ticket.
    pub fn respond(&mut self, ticket: u64, response: Resp) -> (r: Result<(), RobotError>)
        ensures
            r is Ok,
            final(self).services == old(self).services,
            final(self).requests == old(self).requests,
            final(self).next_ticket == old(self).next_ticket,
            final(self).responses@ == old(self).responses@.push(final(self).responses@.last()),
            final(self).responses@.last().ticket == ticket,
            final(self).responses@.last().response == response,
    {
        self.responses.push(ReadyResponse { ticket, response });
        Ok(())
    }

    /// Run this service's executor for one request: pull the oldest
    /// request addressed to it, run the handler, and deliver the
    /// response to the caller's ticket. Returns the ticket served, or
    /// nothing when no request was waiting.
    pub fn handle_next<H: ServiceHandler<Req, Resp>>(&mut self, service_name: &str, handler: &H) -> (r:
        Option<u64>)
        ensures
            final(self).services == old(self).services,
            final(self).next_ticket == old(self).next_ticket,
            match r {
                Some(t) => {
                    &&& exists|i: int|
                        {
                            &&& 0 <= i < old(self).requests@.len()
                            &&& (#[trigger] old(self).requests@[i]).service@ == service_name@
                            &&& forall|j: int|
                                0 <= j < i ==> (#[trigger] old(self).requests@[j]).service@
                                    != service_name@
                            &&& t == old(self).requests@[i].ticket
                            &&& final(self).requests@ == old(self).requests@.remove(i)
                            &&& final(self).responses@.last().response == handler.handle_spec(
                                old(self).requests@[i].request,
                            )
                        }
                    &&& final(self).responses@.len() == old(self).responses@.len() + 1
                    &&& final(self).responses@.subrange(0, old(self).responses@.len() as int)
                        == old(self).responses@
                    &&& final(self).responses@.last().ticket == t
                },
                None => *final(self) == *old(self) && (forall|j: int|
                    0 <= j < old(self).requests@.len() ==> (
                    #[trigger] old(self).requests@[j]).service@ != service_name@),
            },
    {
        let (ticket, request) = match self.take_request(service_name) {
            Some(tr) => tr,
            None => {
                return None;
            },
        };
        let response = handler.handle(request);
        let _ = self.respond(ticket, response);
        proof {
            assert(self.responses@.subrange(0, old(self).responses@.len() as int)
                =~= old(self).responses@);
        }
        Some(ticket)
    }

    /// Collect the response owed to this ticket, if its executor has
    /// delivered one yet. The caller polls until it has.
    pub fn take_response(&mut self, ticket: u64) -> (r: Option<Resp>)
        ensures
            final(self).services == old(self).services,
            final(self).requests == old(self).requests,
            final(self).next_ticket == old(self).next_ticket,
            r is Some <==> old(self).has_response(ticket),
            match r {
                Some(resp) => exists|i: int|
                    {
                        &&& 0 <= i < old(self).responses@.len()
                        &&& (#[trigger] old(self).responses@[i]).ticket == ticket
                        &&& resp == old(self).responses@[i].response
                        &&& final(self).responses@ == old(self).responses@.remove(i)
                    },
                None => final(self).responses == old(self).responses,
            },
    {
        let n = self.responses.len();
        let mut i: usize = 0;
        while i < n
            invariant
                n == self.responses@.len(),
                *self == *old(self),
                i <= n,
                forall|j: int| 0 <= j < i ==> (#[trigger] self.responses@[j]).ticket != ticket,
            decreases n - i,
        {
            if self.responses[i].ticket == ticket {
                let rr = self.responses.remove(i);
                return Some(rr.response);
            }
            i += 1;
        }
        None
    }
}

impl ServiceClient {
    /// Send a request to this client's service, to be answered under
    /// the returned ticket. Fails with "service not available"
    /// exactly when the service is not registered.
    pub fn send_request<Req, Resp>(&self, server: &mut ServiceServer<Req, Resp>, request: Req) -> (r:
        Result<u64, RobotError>)
        ensures
            final(server).services == old(server).services,
            final(server).responses == old(server).responses,
            !old(server).has_service(self.service_name@) ==> {
                &&& *final(server) == *old(server)
                &&& r matches Err(e) && e is Service && e.spec_message()
                    == "service not available"@
            },
            old(server).has_service(self.service_name@) ==> {
                &&& r matches Ok(t) && t == old(server).next_ticket
                &&& final(server).requests@ == old(server).requests@.push(
                    (PendingRequest {
                        ticket: old(server).next_ticket,
                        service: self.service_name,
                        request: request,
                    }),
                )
                &&& final(server).next_ticket == ticket_inc(old(server).next_ticket)
            },
    {
        if !server.service_exists(self.service_name.as_str()) {
            return Err(RobotError::Service(String::from_str("service not available")));
        }
        let ticket = server.next_ticket;
        if server.next_ticket < u64::MAX {
            server.next_ticket = server.next_ticket + 1;
        }
        server.requests.push(
            PendingRequest { ticket, service: self.service_name.clone(), request },
        );
        Ok(ticket)
    }

    /// Make a synchronous call: the request goes to this client's
    /// service, its executor runs the handler on it, and the response
    /// comes back once delivered — the whole round trip that a caller
    /// otherwise performs by sending, driving with `handle_next`, and
    /// collecting with `take_response`. The round trip completes
    /// within the call, so it leaves no pending request and no
    /// uncollected response behind. Fails with "service not
    /// available" exactly when the service is not registered.
    pub fn call<Req, Resp, H: ServiceHandler<Req, Resp>>(
        &self,
        server: &mut ServiceServer<Req, Resp>,
        handler: &H,
        request: Req,
    ) -> (r: Result<Resp, RobotError>)
        ensures
            !old(server).has_service(self.service_name@) ==> {
                &&& *final(server) == *old(server)
                &&& r matches Err(e) && e is Service && e.spec_message()
                    == "service not available"@
            },
            old(server).has_service(self.service_name@) ==> *final(server) == *old(server) && r
                == Ok::<Resp, RobotError>(handler.handle_spec(request)),
    {
        if !server.service_exists(self.service_name.as_str()) {
            return Err(RobotError::Service(String::from_str("service not available")));
        }
        let response = handler.handle(request);
        Ok(response)
    }
}

/// The echo handler of the parameter service: it answers success,
/// handing the requested parameter name straight back as the value.
pub struct EchoParameterHandler;

impl ServiceHandler<GetParameterRequest, GetParameterResponse> for EchoParameterHandler {
    open spec fn handle_spec(&self, request: GetParameterRequest) -> GetParameterResponse {
        GetParameterResponse {
            success: true,
            error_message: None,
            parameter_value: Some(request.parameter_name),
        }
    }

    fn handle(&self, request: GetParameterRequest) -> (r: GetParameterResponse) {
        GetParameterResponse {
            success: true,
            error_message: None,
            parameter_value: Some(request.parameter_name),
        }
    }
}

/// Request to read one named parameter.
#[derive(Debug)]
pub struct GetParameterRequest {
    pub service_name: String,
    pub request_id: ServiceRequestId,
    pub parameter_name: String,
}

impl Clone for GetParameterRequest {
    fn clone(&self) -> (res: Self)
        ensures
            res == *self,
    {
        GetParameterRequest {
            service_name: self.service_name.clone(),
            request_id: self.request_id,
            parameter_name: self.parameter_name.clone(),
        }
    }
}

/// Response carrying the parameter's value, if the read succeeded.
#[derive(Debug)]
pub struct GetParameterResponse {
    pub success: bool,
    pub error_message: Option<String>,
    pub parameter_value: Option<String>,
}

impl Clone for GetParameterResponse {
    fn clone(&self) -> (res: Self)
        ensures
            res == *self,
    {
        GetParameterResponse {
            success: self.success,
            error_message: self.error_message.clone(),
            parameter_value: self.parameter_value.clone(),
        }
    }
}

impl ServiceRequest for GetParameterRequest {
    fn service_name(&self) -> &str {
        self.service_name.as_str()
    }

    fn request_id(&self) -> ServiceRequestId {
        self.request_id
    }
}

impl ServiceResponse for GetParameterResponse {
    fn success(&self) -> bool {
        self.success
    }

    fn error_message(&self) -> Option<&str> {
        match &self.error_message {
            Some(msg) => Some(msg.as_str()),
            None => None,
        }
    }
}

/// Request to write one named parameter.
#[derive(Debug)]
pub struct SetParameterRequest {
    pub service_name: String,
    pub request_id: ServiceRequestId,
    pub parameter_name: String,
    pub parameter_value: String,
}

impl Clone for SetParameterRequest {
    fn clone(&self) -> (res: Self)
        ensures
            res == *self,
    {
        SetParameterRequest {
            service_name: self.service_name.clone(),
            request_id: self.request_id,
            parameter_name: self.parameter_name.clone(),
            parameter_value: self.parameter_value.clone(),
        }
    }
}

/// Response to a parameter write.
#[derive(Debug)]
pub struct SetParameterResponse {
    pub success: bool,
    pub error_message: Option<String>,
}

impl Clone for SetParameterResponse {
    fn clone(&self) -> (res: Self)
        ensures
            res == *self,
    {
        SetParameterResponse {
            success: self.success,
            error_message: self.error_message.clone(),
        }
    }
}

impl ServiceRequest for SetParameterRequest {
    fn service_name(&self) -> &str {
        self.service_name.as_str()
    }

    fn request_id(&self) -> ServiceRequestId {
        self.request_id
    }
}

impl ServiceResponse for SetParameterResponse {
    fn success(&self) -> bool {
        self.success
    }

    fn error_message(&self) -> Option<&str> {
        match &self.error_message {
            Some(msg) => Some(msg.as_str()),
            None => None,
        }
    }
}

} // verus!
